//! One-use tokens that prove what the user selected in the picker.

use vstd::prelude::*;

use crate::assoc::{Assoc, Owned};
use crate::dbus::target::{targets_of, StreamTargetId, Target, TargetSet};
use crate::text::same_text;

verus! {

/// The length of a selection token in bytes.
pub const SELECTION_TOKEN_LEN: usize = 32;

/// The error of the system's random number source.
#[verifier::external_type_specification]
#[verifier::external_body]
pub struct ExRandomError(getrandom::Error);

/// `getrandom::fill` overwrites the bytes of the slice with random ones. Nothing is known of
/// them, whether it succeeds or fails; the slice stays as long as it was.
pub assume_specification[ getrandom::fill ](dest: &mut [u8]) -> (r: Result<(), getrandom::Error>)
    ensures
        final(dest)@.len() == old(dest)@.len(),
;

/// Why no token could be issued.
#[derive(Debug)]
pub enum IssueTokenError {
    /// The system's random number source failed.
    Random(getrandom::Error),
    /// Every token that was drawn was in use.
    Exhausted,
}

/// Why a token was refused.
#[derive(Debug, Clone, Copy, PartialEq, Eq, Structural)]
pub enum ConsumeTokenError {
    InvalidLength,
    Invalid,
}

/// What one token stands for.
#[derive(Debug)]
pub struct SelectionGrant {
    sender: String,
    targets: TargetSet,
}

/// What one token stands for: who may use it, and for which targets.
pub struct Grant {
    pub sender: Seq<char>,
    pub targets: Set<Target>,
}

impl View for SelectionGrant {
    type V = Grant;

    closed spec fn view(&self) -> Grant {
        Grant { sender: self.sender@, targets: self.targets@ }
    }
}

impl Owned for SelectionGrant {
    open spec fn owned_by(&self, owner: Seq<char>) -> bool {
        self@.sender == owner
    }

    fn belongs_to(&self, owner: &str) -> (r: bool) {
        same_text(self.sender.as_str(), owner)
    }
}

/// The tokens that were issued and not used yet.
#[derive(Debug)]
pub struct SelectionTokens {
    grants: Assoc<Vec<u8>, SelectionGrant>,
}

/// What becomes of a token that was drawn.
#[derive(Debug)]
pub enum DrawnToken {
    /// The token is issued.
    Issued(Vec<u8>),
    /// The token is in use: draw another one.
    DrawAgain,
    /// The token is in use, and no draw is left.
    Exhausted,
}

spec fn granted(grants: Map<Seq<u8>, SelectionGrant>) -> Map<Seq<u8>, Grant> {
    grants.map_values(|grant: SelectionGrant| grant@)
}

/// What using `token` answers `sender` while the tokens in `grants` are valid.
pub open spec fn consumed_targets(
    grants: Map<Seq<u8>, Grant>,
    sender: Seq<char>,
    token: Seq<u8>,
) -> Result<Set<Target>, ConsumeTokenError> {
    if token.len() != SELECTION_TOKEN_LEN {
        Err(ConsumeTokenError::InvalidLength)
    } else if grants.contains_key(token) && grants[token].sender == sender {
        Ok(grants[token].targets)
    } else {
        Err(ConsumeTokenError::Invalid)
    }
}

/// The tokens that are valid after `sender` tried to use `token`.
pub open spec fn after_consume(
    grants: Map<Seq<u8>, Grant>,
    sender: Seq<char>,
    token: Seq<u8>,
) -> Map<Seq<u8>, Grant> {
    if consumed_targets(grants, sender, token) is Ok {
        grants.remove(token)
    } else {
        grants
    }
}

/// The tokens that are valid after the client `sender` left the bus.
pub open spec fn without_sender(grants: Map<Seq<u8>, Grant>, sender: Seq<char>) -> Map<
    Seq<u8>,
    Grant,
> {
    Map::new(
        |token: Seq<u8>| grants.contains_key(token) && grants[token].sender != sender,
        |token: Seq<u8>| grants[token],
    )
}

impl View for SelectionTokens {
    type V = Map<Seq<u8>, Grant>;

    closed spec fn view(&self) -> Map<Seq<u8>, Grant> {
        granted(self.grants@)
    }
}

impl SelectionTokens {
    /// No two grants share a token.
    pub closed spec fn wf(self) -> bool {
        self.grants.wf()
    }

    /// No tokens.
    pub fn new() -> (tokens: SelectionTokens)
        ensures
            tokens.wf(),
            tokens@ == Map::<Seq<u8>, Grant>::empty(),
    {
        let tokens = SelectionTokens { grants: Assoc::new() };
        assert(tokens@ =~= Map::<Seq<u8>, Grant>::empty());
        tokens
    }

    /// Grants `targets` to `sender` under `token`, unless that token is in use.
    pub fn grant(&mut self, token: Vec<u8>, sender: &str, targets: &Vec<StreamTargetId>) -> (added:
        bool)
        requires
            old(self).wf(),
        ensures
            final(self).wf(),
            added == !old(self)@.contains_key(token@),
            final(self)@ == (if added {
                old(self)@.insert(
                    token@,
                    (Grant { sender: sender@, targets: targets_of(targets@).to_set() }),
                )
            } else {
                old(self)@
            }),
    {
        if self.grants.contains_key(&token) {
            return false;
        }
        let ghost key = token@;
        let grant = SelectionGrant {
            sender: sender.to_owned(),
            targets: TargetSet::collect(targets),
        };
        self.grants.insert(token, grant);
        assert(self@ =~= old(self)@.insert(key, grant@));
        true
    }

    /// Decides about a token that was drawn for `sender` and `targets`, with `draws_left` draws to
    /// go: it is issued unless it is in use, and then another one is drawn as long as that may be.
    pub fn settle_draw(
        &mut self,
        token: Vec<u8>,
        draws_left: u64,
        sender: &str,
        targets: &Vec<StreamTargetId>,
    ) -> (r: DrawnToken)
        requires
            old(self).wf(),
        ensures
            final(self).wf(),
            if !old(self)@.contains_key(token@) {
                &&& r is Issued
                &&& r->Issued_0@ == token@
                &&& final(self)@ == old(self)@.insert(
                    token@,
                    (Grant { sender: sender@, targets: targets_of(targets@).to_set() }),
                )
            } else {
                &&& r == (if draws_left > 0 {
                    DrawnToken::DrawAgain
                } else {
                    DrawnToken::Exhausted
                })
                &&& final(self)@ == old(self)@
            },
    {
        let issued = token.clone();
        if self.grant(token, sender, targets) {
            DrawnToken::Issued(issued)
        } else if draws_left > 0 {
            DrawnToken::DrawAgain
        } else {
            DrawnToken::Exhausted
        }
    }

    /// Grants `targets` to `sender` under a fresh random token and returns the token.
    ///
    /// Tokens are drawn until one is not in use. The number of draws is bounded only by the range
    /// of the counter, which runs out only while tokens are in use.
    pub fn issue(&mut self, sender: &str, targets: &Vec<StreamTargetId>) -> (r: Result<
        Vec<u8>,
        IssueTokenError,
    >)
        requires
            old(self).wf(),
        ensures
            final(self).wf(),
            match r {
                Ok(token) => token@.len() == SELECTION_TOKEN_LEN
                    && !old(self)@.contains_key(token@) && final(self)@ == old(self)@.insert(
                    token@,
                    (Grant { sender: sender@, targets: targets_of(targets@).to_set() }),
                ),
                Err(IssueTokenError::Random(_)) => final(self)@ == old(self)@,
                Err(IssueTokenError::Exhausted) => final(self)@ == old(self)@ && exists|
                    token: Seq<u8>,
                |
                    token.len() == SELECTION_TOKEN_LEN && #[trigger] old(self)@.contains_key(token),
            },
    {
        let mut draws_left: u64 = u64::MAX;
        loop
            invariant
                self.wf(),
                self@ == old(self)@,
            decreases draws_left,
        {
            let mut token: Vec<u8> = vec![0u8; SELECTION_TOKEN_LEN];
            match getrandom::fill(token.as_mut_slice()) {
                Ok(_) => {},
                Err(err) => {
                    return Err(IssueTokenError::Random(err));
                },
            }
            match self.settle_draw(token, draws_left, sender, targets) {
                DrawnToken::Issued(token) => {
                    return Ok(token);
                },
                DrawnToken::DrawAgain => {
                    draws_left = draws_left - 1;
                },
                DrawnToken::Exhausted => {
                    assert(old(self)@.contains_key(token@));
                    return Err(IssueTokenError::Exhausted);
                },
            }
        }
    }

    /// Uses up `token` and returns the targets that it stands for.
    ///
    /// Only the client that the token was issued to can use it.
    pub fn consume(&mut self, sender: &str, token: &[u8]) -> (r: Result<
        TargetSet,
        ConsumeTokenError,
    >)
        requires
            old(self).wf(),
        ensures
            final(self).wf(),
            match consumed_targets(old(self)@, sender@, token@) {
                Ok(targets) => r is Ok && r->Ok_0@ == targets,
                Err(err) => r is Err && r->Err_0 == err,
            },
            final(self)@ == after_consume(old(self)@, sender@, token@),
    {
        if token.len() != SELECTION_TOKEN_LEN {
            return Err(ConsumeTokenError::InvalidLength);
        }
        let token: Vec<u8> = vstd::slice::slice_to_vec(token);
        let granted_to_sender = match self.grants.get(&token) {
            Some(grant) => grant.belongs_to(sender),
            None => false,
        };
        if !granted_to_sender {
            return Err(ConsumeTokenError::Invalid);
        }
        match self.grants.remove(&token) {
            Some(grant) => {
                assert(self@ =~= old(self)@.remove(token@));
                Ok(grant.targets)
            },
            None => Err(ConsumeTokenError::Invalid),
        }
    }

    /// Forgets the tokens of `sender`.
    pub fn remove_sender(&mut self, sender: &str)
        requires
            old(self).wf(),
        ensures
            final(self).wf(),
            final(self)@ == without_sender(old(self)@, sender@),
    {
        self.grants.remove_owned(sender);
        assert(self@ =~= without_sender(old(self)@, sender@));
    }
}

/// A token works once: after a successful use, nobody can use it.
pub proof fn tokens_are_one_use(
    grants: Map<Seq<u8>, Grant>,
    sender: Seq<char>,
    token: Seq<u8>,
    next_sender: Seq<char>,
)
    requires
        consumed_targets(grants, sender, token) is Ok,
    ensures
        consumed_targets(after_consume(grants, sender, token), next_sender, token) == Err::<
            Set<Target>,
            ConsumeTokenError,
        >(ConsumeTokenError::Invalid),
{
}

/// A token works only for the client that it was issued to, and a refused use leaves it valid.
pub proof fn tokens_are_sender_bound(
    grants: Map<Seq<u8>, Grant>,
    token: Seq<u8>,
    grant: Grant,
    other: Seq<char>,
)
    requires
        token.len() == SELECTION_TOKEN_LEN,
        other != grant.sender,
    ensures
        ({
            let issued = grants.insert(token, grant);
            &&& consumed_targets(issued, other, token) == Err::<Set<Target>, ConsumeTokenError>(
                ConsumeTokenError::Invalid,
            )
            &&& after_consume(issued, other, token) == issued
        }),
{
}

/// A fresh token gives its owner back the targets it was issued for, and using it leaves the
/// other tokens as they were before it was issued.
pub proof fn issued_tokens_can_be_used(grants: Map<Seq<u8>, Grant>, token: Seq<u8>, grant: Grant)
    requires
        token.len() == SELECTION_TOKEN_LEN,
        !grants.contains_key(token),
    ensures
        ({
            let issued = grants.insert(token, grant);
            &&& consumed_targets(issued, grant.sender, token) == Ok::<
                Set<Target>,
                ConsumeTokenError,
            >(grant.targets)
            &&& after_consume(issued, grant.sender, token) == grants
        }),
{
    let issued = grants.insert(token, grant);
    assert(after_consume(issued, grant.sender, token) =~= grants);
}

/// The tokens of a client that left the bus are worthless, and those of the others still work.
pub proof fn tokens_die_with_their_sender(
    grants: Map<Seq<u8>, Grant>,
    gone: Seq<char>,
    sender: Seq<char>,
    token: Seq<u8>,
)
    ensures
        consumed_targets(without_sender(grants, gone), gone, token) is Err,
        sender != gone ==> consumed_targets(without_sender(grants, gone), sender, token)
            == consumed_targets(grants, sender, token),
{
}

} // verus!
