use vstd::prelude::*;

verus! {

/// One own property of the object that a bundle evaluated to: its name, and
/// whether its value is callable.
#[derive(Clone, Debug, PartialEq, Eq)]
pub struct OwnProperty {
    pub name: String,
    pub callable: bool,
}

impl View for OwnProperty {
    type V = (Seq<char>, bool);

    open spec fn view(&self) -> (Seq<char>, bool) {
        (self.name@, self.callable)
    }
}

/// One entry of the export map: the name of a callable own property and its
/// position among the object's own properties.
#[derive(Clone, Debug, PartialEq, Eq)]
pub struct Export {
    pub name: String,
    pub slot: usize,
}

impl View for Export {
    type V = (Seq<char>, nat);

    open spec fn view(&self) -> (Seq<char>, nat) {
        (self.name@, self.slot as nat)
    }
}

pub open spec fn property_views(props: Seq<OwnProperty>) -> Seq<(Seq<char>, bool)> {
    props.map_values(|p: OwnProperty| p@)
}

pub open spec fn export_views(exports: Seq<Export>) -> Seq<(Seq<char>, nat)> {
    exports.map_values(|e: Export| e@)
}

/// The export map of an object with the given own properties, in enumeration
/// order: the callable properties, each with its position; the others dropped.
pub open spec fn exports_of(props: Seq<(Seq<char>, bool)>) -> Seq<(Seq<char>, nat)>
    decreases props.len(),
{
    if props.len() == 0 {
        seq![]
    } else {
        let rest = exports_of(props.drop_last());
        if props.last().1 {
            rest.push((props.last().0, (props.len() - 1) as nat))
        } else {
            rest
        }
    }
}

/// Every export names a callable property at its position, and positions rise
/// strictly along the map.
pub proof fn lemma_exports_are_callable(props: Seq<(Seq<char>, bool)>)
    ensures
        forall|k: int|
            0 <= k < exports_of(props).len() ==> {
                let e = #[trigger] exports_of(props)[k];
                &&& e.1 < props.len()
                &&& props[e.1 as int].1
                &&& props[e.1 as int].0 == e.0
            },
        forall|j: int, k: int|
            0 <= j < k < exports_of(props).len() ==> exports_of(props)[j].1
                < exports_of(props)[k].1,
        exports_of(props).len() <= props.len(),
    decreases props.len(),
{
    if props.len() > 0 {
        let init = props.drop_last();
        lemma_exports_are_callable(init);
        assert forall|k: int| 0 <= k < exports_of(init).len() implies {
            let e = #[trigger] exports_of(init)[k];
            &&& props[e.1 as int] == init[e.1 as int]
        } by {}
    }
}

/// Reflects over the own properties of a bundle's result object and keeps the
/// callable ones, in enumeration order.
pub fn create_fn_map(props: &Vec<OwnProperty>) -> (r: Vec<Export>)
    ensures
        export_views(r@) == exports_of(property_views(props@)),
{
    let mut r: Vec<Export> = Vec::new();
    let mut i: usize = 0;
    while i < props.len()
        invariant
            i <= props.len(),
            export_views(r@) == exports_of(property_views(props@.subrange(0, i as int))),
        decreases props.len() - i,
    {
        let ghost before = r@;
        let p = &props[i];
        if p.callable {
            r.push(Export { name: p.name.clone(), slot: i });
        }
        proof {
            let next = property_views(props@.subrange(0, i + 1));
            assert(next.drop_last() =~= property_views(props@.subrange(0, i as int)));
            assert(next.last() == p@);
            if p.callable {
                assert(export_views(r@) =~= export_views(before).push((p.name@, i as nat)));
            } else {
                assert(export_views(r@) =~= export_views(before));
            }
        }
        i += 1;
    }
    proof {
        assert(props@.subrange(0, props@.len() as int) =~= props@);
    }
    r
}

} // verus!
