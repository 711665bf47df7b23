//! The per-class analysis: which variables occur free in a class, and which
//! literal, if any, the class is known to equal.
use vstd::prelude::*;
use crate::idset::IdSet;
use crate::lang::{Id, Lambda, Literal};

verus! {

/// What the analysis knows of one class.
#[derive(Debug, Clone)]
pub struct Data {
    free: IdSet,
    constant: Option<Literal>,
}

/// The mathematical content of [`Data`].
pub struct DataView {
    pub free: Set<Id>,
    pub constant: Option<Literal>,
}

impl View for Data {
    type V = DataView;

    closed spec fn view(&self) -> DataView {
        DataView { free: self.free@, constant: self.constant }
    }
}

impl Data {
    pub closed spec fn wf(&self) -> bool {
        self.free.wf()
    }

    /// The classes of the variables that occur free in this class.
    pub fn free(&self) -> (r: &IdSet)
        requires
            self.wf(),
        ensures
            r@ == self@.free,
            r.wf(),
    {
        &self.free
    }

    /// The literal this class is known to equal, if any.
    pub fn constant(&self) -> (r: Option<Literal>)
        ensures
            r == self@.constant,
    {
        self.constant
    }
}

/// Which side of a merge the merged data differs from.
#[derive(Debug, Clone, Copy, PartialEq, Eq, Structural)]
pub struct MergeReport {
    /// The merged data differs from what the receiving class held.
    pub to_changed: bool,
    /// The merged data differs from what the absorbed class held.
    pub from_changed: bool,
}

/// The analysis itself; it holds no state.
#[derive(Debug, Default, Clone, Copy)]
pub struct LambdaAnalysis;

/// The union of a sequence of sets.
pub open spec fn union_all(sets: Seq<Set<Id>>) -> Set<Id>
    decreases sets.len(),
{
    if sets.len() == 0 {
        Set::empty()
    } else {
        union_all(sets.drop_last()).union(sets.last())
    }
}

/// The free variables of a node, given those of its children in order.
pub open spec fn free_spec(node: Lambda, kids: Seq<Set<Id>>) -> Set<Id> {
    match node {
        Lambda::Var(v) => set![v],
        Lambda::Let(c) => kids[2].remove(c[0]).union(kids[1]),
        Lambda::Lambda(c) | Lambda::Fix(c) => kids[1].remove(c[0]),
        _ => union_all(kids),
    }
}

/// The literal a node folds to, given those its children are known to equal.
/// An addition whose sum leaves the range of `i32` folds to nothing.
pub open spec fn eval_spec(node: Lambda, kids: Seq<Option<Literal>>) -> Option<Literal> {
    match node {
        Lambda::Bool(b) => Some(Literal::Bool(b)),
        Lambda::Num(n) => Some(Literal::Num(n)),
        Lambda::Add(_) => match (kids[0], kids[1]) {
            (Some(Literal::Num(a)), Some(Literal::Num(b))) => if i32::MIN <= a + b <= i32::MAX {
                Some(Literal::Num((a + b) as i32))
            } else {
                None
            },
            _ => None,
        },
        Lambda::Eq(_) => match (kids[0], kids[1]) {
            (Some(a), Some(b)) => Some(Literal::Bool(a == b)),
            _ => None,
        },
        _ => None,
    }
}

pub open spec fn kid_free(kids: Seq<Data>) -> Seq<Set<Id>> {
    kids.map_values(|d: Data| d@.free)
}

pub open spec fn kid_constants(kids: Seq<Data>) -> Seq<Option<Literal>> {
    kids.map_values(|d: Data| d@.constant)
}

/// Every child's data is well formed, and there is one for each child.
pub open spec fn kids_fit(node: Lambda, kids: Seq<Data>) -> bool {
    &&& kids.len() == node.children_spec().len()
    &&& forall|i: int| 0 <= i < kids.len() ==> (#[trigger] kids[i]).wf()
}

/// The data of a node whose children have the data `kids`, in order.
pub open spec fn make_spec(node: Lambda, kids: Seq<Data>) -> DataView {
    DataView { free: free_spec(node, kid_free(kids)), constant: eval_spec(node, kid_constants(kids)) }
}

/// Folds a node to a literal, from the literals its children are known to
/// equal.
pub fn eval(enode: &Lambda, kids: &Vec<Data>) -> (r: Option<Literal>)
    requires
        kids@.len() == enode.children_spec().len(),
    ensures
        r == eval_spec(*enode, kid_constants(kids@)),
{
    match enode {
        Lambda::Bool(b) => Some(Literal::Bool(*b)),
        Lambda::Num(n) => Some(Literal::Num(*n)),
        Lambda::Add(_) => match (kids[0].constant, kids[1].constant) {
            (Some(Literal::Num(a)), Some(Literal::Num(b))) => match a.checked_add(b) {
                Some(s) => Some(Literal::Num(s)),
                None => None,
            },
            _ => None,
        },
        Lambda::Eq(_) => match (kids[0].constant, kids[1].constant) {
            (Some(a), Some(b)) => Some(Literal::Bool(a == b)),
            _ => None,
        },
        _ => None,
    }
}

impl LambdaAnalysis {
    /// The data of a new node, from the data of its children in order.
    pub fn make(enode: &Lambda, kids: &Vec<Data>) -> (r: Data)
        requires
            kids_fit(*enode, kids@),
        ensures
            r.wf(),
            r@ == make_spec(*enode, kids@),
    {
        let mut free = IdSet::new();
        match enode {
            Lambda::Var(v) => {
                free.insert(*v);
                assert(free@ =~= set![*v]);
            },
            Lambda::Let(c) => {
                free.extend(&kids[2].free);
                free.remove(c[0]);
                free.extend(&kids[1].free);
            },
            Lambda::Lambda(c) | Lambda::Fix(c) => {
                free.extend(&kids[1].free);
                free.remove(c[0]);
            },
            _ => {
                let mut i: usize = 0;
                while i < kids.len()
                    invariant
                        i <= kids@.len(),
                        free.wf(),
                        free@ == union_all(kid_free(kids@).subrange(0, i as int)),
                        forall|j: int| 0 <= j < kids@.len() ==> (#[trigger] kids@[j]).wf(),
                    decreases kids@.len() - i,
                {
                    free.extend(&kids[i].free);
                    proof {
                        let ks = kid_free(kids@);
                        assert(ks.subrange(0, i + 1).drop_last() == ks.subrange(0, i as int));
                    }
                    i += 1;
                }
                assert(kid_free(kids@).subrange(0, i as int) == kid_free(kids@));
            },
        }
        proof {
            let ks = kid_free(kids@);
            assert(free@ =~= free_spec(*enode, ks));
        }
        let constant = eval(enode, kids);
        Data { free, constant }
    }

    /// Merges the data of an absorbed class `from` into the receiving class
    /// `to`: the free variables become those both sides hold, and a constant
    /// that `to` already knows is kept.
    pub fn merge(&self, to: &mut Data, from: Data) -> (r: MergeReport)
        requires
            old(to).wf(),
            from.wf(),
        ensures
            final(to).wf(),
            final(to)@.free == old(to)@.free.intersect(from@.free),
            final(to)@.constant == (match old(to)@.constant {
                Some(c) => Some(c),
                None => from@.constant,
            }),
            r.to_changed == (final(to)@ != old(to)@),
            r.from_changed == (final(to)@ != from@),
    {
        let dropped = to.free.retain_in(&from.free);
        let adopted = to.constant.is_none() && from.constant.is_some();
        if adopted {
            to.constant = from.constant;
        }
        let free_differs = !from.free.is_subset_of(&to.free);
        let constant_differs = match (to.constant, from.constant) {
            (Some(a), Some(b)) => a != b,
            (None, None) => false,
            _ => true,
        };
        proof {
            if !dropped && !adopted {
                assert(to@ == old(to)@);
            }
            if !free_differs {
                assert(to@.free =~= from@.free);
                if !constant_differs {
                    assert(to@ == from@);
                }
            }
        }
        MergeReport { to_changed: dropped || adopted, from_changed: free_differs || constant_differs }
    }

    /// After a merge: the literal node to insert and union with a class whose
    /// constant is known, if it is.
    pub fn modify(data: &Data) -> (r: Option<Lambda>)
        ensures
            r == (match data@.constant {
                Some(c) => Some(c.node_spec()),
                None => None::<Lambda>,
            }),
    {
        match data.constant {
            Some(c) => Some(c.to_node()),
            None => None,
        }
    }
}

} // verus!
