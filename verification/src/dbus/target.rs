//! What a screen cast stream records.

use vstd::prelude::*;

verus! {

/// The output or the window that a stream records.
#[derive(Debug, PartialEq, Eq, Hash)]
pub enum StreamTargetId {
    Output { name: String },
    Window { id: u64 },
}

/// A [`StreamTargetId`] as a mathematical value.
pub enum Target {
    Output(Seq<char>),
    Window(u64),
}

impl View for StreamTargetId {
    type V = Target;

    open spec fn view(&self) -> Target {
        match self {
            StreamTargetId::Output { name } => Target::Output(name@),
            StreamTargetId::Window { id } => Target::Window(*id),
        }
    }
}

impl Clone for StreamTargetId {
    fn clone(&self) -> (r: Self)
        ensures
            r == *self,
    {
        match self {
            StreamTargetId::Output { name } => StreamTargetId::Output { name: name.clone() },
            StreamTargetId::Window { id } => StreamTargetId::Window { id: *id },
        }
    }
}

impl StreamTargetId {
    /// Whether both name the same output or the same window.
    pub fn same(&self, other: &StreamTargetId) -> (r: bool)
        ensures
            r == (self@ == other@),
    {
        match (self, other) {
            (StreamTargetId::Output { name: a }, StreamTargetId::Output { name: b }) => *a == *b,
            (StreamTargetId::Window { id: a }, StreamTargetId::Window { id: b }) => *a == *b,
            _ => false,
        }
    }
}

/// The targets of a list, in order.
pub open spec fn targets_of(list: Seq<StreamTargetId>) -> Seq<Target> {
    list.map_values(|t: StreamTargetId| t@)
}

/// Whether one of the targets in `list` is `target`.
pub fn list_contains(list: &Vec<StreamTargetId>, target: &StreamTargetId) -> (found: bool)
    ensures
        found == targets_of(list@).contains(target@),
{
    for i in 0..list.len()
        invariant
            forall|j: int| 0 <= j < i ==> (#[trigger] list@[j])@ != target@,
    {
        if list[i].same(target) {
            assert(targets_of(list@)[i as int] == target@);
            return true;
        }
    }
    assert forall|j: int| 0 <= j < list@.len() implies targets_of(list@)[j] != target@ by {
        assert(list@[j]@ != target@);
    }
    false
}

/// A finite set of targets.
#[derive(Debug)]
pub struct TargetSet {
    targets: Vec<StreamTargetId>,
}

impl View for TargetSet {
    type V = Set<Target>;

    closed spec fn view(&self) -> Set<Target> {
        targets_of(self.targets@).to_set()
    }
}

impl PartialEq for TargetSet {
    /// Whether both sets hold the same targets.
    fn eq(&self, other: &Self) -> (r: bool) {
        if self.targets.len() != other.targets.len() {
            proof {
                use_type_invariant(self);
                use_type_invariant(other);
                targets_of(self.targets@).unique_seq_to_set();
                targets_of(other.targets@).unique_seq_to_set();
            }
            return false;
        }
        for i in 0..self.targets.len()
            invariant
                forall|j: int| 0 <= j < i ==> other@.contains((#[trigger] self.targets@[j])@),
        {
            if !other.contains(&self.targets[i]) {
                assert(targets_of(self.targets@)[i as int] == self.targets@[i as int]@);
                assert(self@.contains(self.targets@[i as int]@));
                return false;
            }
        }
        proof {
            use_type_invariant(self);
            use_type_invariant(other);
            targets_of(self.targets@).unique_seq_to_set();
            targets_of(other.targets@).unique_seq_to_set();
            assert(self@.subset_of(other@));
            vstd::set_lib::lemma_subset_equality(self@, other@);
        }
        true
    }
}

impl vstd::std_specs::cmp::PartialEqSpecImpl for TargetSet {
    open spec fn obeys_eq_spec() -> bool {
        true
    }

    open spec fn eq_spec(&self, other: &Self) -> bool {
        self@ == other@
    }
}

impl TargetSet {
    #[verifier::type_invariant]
    spec fn distinct(self) -> bool {
        targets_of(self.targets@).no_duplicates()
    }

    /// The set of the targets in `list`.
    pub fn collect(list: &Vec<StreamTargetId>) -> (set: TargetSet)
        ensures
            set@ == targets_of(list@).to_set(),
    {
        let mut targets: Vec<StreamTargetId> = Vec::new();
        assert(targets_of(targets@).to_set() =~= targets_of(list@.take(0)).to_set());
        for i in 0..list.len()
            invariant
                targets_of(targets@).no_duplicates(),
                targets_of(targets@).to_set() =~= targets_of(list@.take(i as int)).to_set(),
        {
            let ghost before = targets@;
            let ghost seen = targets_of(list@.take(i as int));
            if !list_contains(&targets, &list[i]) {
                targets.push(list[i].clone());
                assert(targets_of(targets@) =~= targets_of(before).push(list@[i as int]@));
            }
            proof {
                assert(targets_of(list@.take(i + 1)) =~= seen.push(list@[i as int]@));
                assert(seen.push(list@[i as int]@).to_set() =~= seen.to_set().insert(
                    list@[i as int]@,
                )) by {
                    seen.lemma_push_to_set_commute(list@[i as int]@);
                }
                targets_of(before).lemma_push_to_set_commute(list@[i as int]@);
            }
        }
        assert(list@.take(list@.len() as int) =~= list@);
        TargetSet { targets }
    }

    /// Whether `target` is in the set.
    pub fn contains(&self, target: &StreamTargetId) -> (r: bool)
        ensures
            r == self@.contains(target@),
    {
        list_contains(&self.targets, target)
    }

    /// How many targets are in the set.
    pub fn len(&self) -> (n: usize)
        ensures
            n == self@.len(),
    {
        proof {
            use_type_invariant(self);
            targets_of(self.targets@).unique_seq_to_set();
        }
        self.targets.len()
    }
}

} // verus!
