//! Views of the registry for display: a parent in brief, the tensors of a
//! parent by layer and component, and the tensors of all parents side by
//! side.

use vstd::prelude::*;
use vstd::std_specs::convert::FromSpecImpl;
use crate::inspect::{
    component_of, extract_layer_index, layer_index_of, tensor_component, TensorComponent,
};
use crate::model::{copy_opt_string, opt_text, ModelFormat};
use crate::planner::texts;
use crate::registry::{ParentModel, ParentRegistry, TensorMeta};
use crate::seqs::{count_where, keep_where, keep_where_push};
use crate::text::str_eq;

verus! {

/// A parent in brief.
#[derive(Clone, Debug)]
pub struct ParentModelInfo {
    pub id: String,
    pub slot: usize,
    pub name: String,
    pub file_path: String,
    pub format: String,
    pub file_size: u64,
    pub file_size_display: String,
    pub parameter_count: u64,
    pub parameter_count_display: String,
    pub layer_count: Option<u64>,
    pub architecture: Option<String>,
    pub quantization: Option<String>,
    pub color: String,
    pub tensor_count: usize,
}

/// The name of a container format.
pub open spec fn format_name(format: ModelFormat) -> Seq<char> {
    match format {
        ModelFormat::SafeTensors => "safe_tensors"@,
        ModelFormat::Gguf => "gguf"@,
    }
}

impl ParentModelInfo {
    /// The record describes the parent `p`.
    pub open spec fn describes(self, p: ParentModel) -> bool {
        &&& self.id@ == p.id@
        &&& self.slot == p.slot
        &&& self.name@ == p.name@
        &&& self.file_path@ == p.file_path@
        &&& self.format@ == format_name(p.format)
        &&& self.file_size == p.file_size
        &&& self.file_size_display@ == p.file_size_display@
        &&& self.parameter_count == p.parameter_count
        &&& self.parameter_count_display@ == p.parameter_count_display@
        &&& self.layer_count == p.layer_count
        &&& opt_text(self.architecture) == opt_text(p.architecture)
        &&& opt_text(self.quantization) == opt_text(p.quantization)
        &&& self.color@ == p.color@
        &&& self.tensor_count == p.compat.tensor_metas@.len()
    }
}

impl<'a> From<&'a ParentModel> for ParentModelInfo {
    fn from(p: &'a ParentModel) -> (r: ParentModelInfo)
        ensures
            r.describes(*p),
    {
        ParentModelInfo {
            id: p.id.clone(),
            slot: p.slot,
            name: p.name.clone(),
            file_path: p.file_path.clone(),
            format: match p.format {
                ModelFormat::SafeTensors => "safe_tensors".to_owned(),
                ModelFormat::Gguf => "gguf".to_owned(),
            },
            file_size: p.file_size,
            file_size_display: p.file_size_display.clone(),
            parameter_count: p.parameter_count,
            parameter_count_display: p.parameter_count_display.clone(),
            layer_count: p.layer_count,
            architecture: copy_opt_string(&p.architecture),
            quantization: copy_opt_string(&p.quantization),
            color: p.color.clone(),
            tensor_count: p.compat.tensor_metas.len(),
        }
    }
}

impl<'a> FromSpecImpl<&'a ParentModel> for ParentModelInfo {
    open spec fn obeys_from_spec() -> bool {
        false
    }

    open spec fn from_spec(p: &'a ParentModel) -> ParentModelInfo {
        choose|r: ParentModelInfo| r.describes(*p)
    }
}

/// The parents of a registry in brief, in their order.
pub fn merge_get_parents(registry: &ParentRegistry) -> (r: Vec<ParentModelInfo>)
    ensures
        r@.len() == registry@.len(),
        forall|i: int| 0 <= i < r@.len() ==> (#[trigger] r@[i]).describes(registry@[i]),
{
    let parents = registry.all();
    let mut out: Vec<ParentModelInfo> = Vec::new();
    let mut i: usize = 0;
    while i < parents.len()
        invariant
            i <= parents.len(),
            parents@ == registry@,
            out@.len() == i,
            forall|j: int| 0 <= j < i ==> (#[trigger] out@[j]).describes(registry@[j]),
        decreases parents.len() - i,
    {
        out.push(ParentModelInfo::from(&parents[i]));
        i = i + 1;
    }
    out
}

// ---------------------------------------------------------------------------
// Tensors by layer and component
// ---------------------------------------------------------------------------

/// The tensors of one layer, by component.
#[derive(Clone, Debug)]
pub struct LayerComponentInfo {
    pub layer_index: u64,
    pub attention_tensors: Vec<String>,
    pub mlp_tensors: Vec<String>,
    pub norm_tensors: Vec<String>,
    pub other_tensors: Vec<String>,
    pub total_params: u64,
}

/// The group of components that a tensor is listed under.
#[derive(Clone, Copy, Debug, PartialEq, Eq, Structural)]
pub enum ComponentGroup {
    Attention,
    Mlp,
    Norm,
    Other,
}

/// The group of a component: attention, feed-forward and normalisation
/// each have their own, everything else is `Other`.
pub open spec fn group_of(c: TensorComponent) -> ComponentGroup {
    match c {
        TensorComponent::Attention => ComponentGroup::Attention,
        TensorComponent::Mlp => ComponentGroup::Mlp,
        TensorComponent::Norm => ComponentGroup::Norm,
        _ => ComponentGroup::Other,
    }
}

/// The tensor belongs to the layer `layer` and to the group `group`.
pub open spec fn in_layer_group(layer: u64, group: ComponentGroup) -> spec_fn(TensorMeta) -> bool {
    |m: TensorMeta| layer_index_of(m.name@) == Some(layer) && group_of(component_of(m.name@)) == group
}

/// The names of a list of tensors.
pub open spec fn names_of(metas: Seq<TensorMeta>) -> Seq<Seq<char>> {
    metas.map_values(|m: TensorMeta| m.name@)
}

/// The names of the tensors of a layer and a group, in the order of the
/// parent's tensor list.
pub open spec fn layer_group_names(
    metas: Seq<TensorMeta>,
    layer: u64,
    group: ComponentGroup,
) -> Seq<Seq<char>> {
    names_of(keep_where(metas, in_layer_group(layer, group)))
}

impl LayerComponentInfo {
    /// The record lists the tensors of the layer `layer` among `metas`.
    pub open spec fn describes(self, metas: Seq<TensorMeta>, layer: u64) -> bool {
        &&& self.layer_index == layer
        &&& texts(self.attention_tensors@) == layer_group_names(
            metas,
            layer,
            ComponentGroup::Attention,
        )
        &&& texts(self.mlp_tensors@) == layer_group_names(metas, layer, ComponentGroup::Mlp)
        &&& texts(self.norm_tensors@) == layer_group_names(metas, layer, ComponentGroup::Norm)
        &&& texts(self.other_tensors@) == layer_group_names(metas, layer, ComponentGroup::Other)
        &&& self.total_params == 0
    }
}

fn group(c: TensorComponent) -> (r: ComponentGroup)
    ensures
        r == group_of(c),
{
    match c {
        TensorComponent::Attention => ComponentGroup::Attention,
        TensorComponent::Mlp => ComponentGroup::Mlp,
        TensorComponent::Norm => ComponentGroup::Norm,
        _ => ComponentGroup::Other,
    }
}

fn collect_group(
    metas: &Vec<TensorMeta>,
    places: &Vec<(Option<u64>, ComponentGroup)>,
    layer: u64,
    wanted: ComponentGroup,
) -> (r: Vec<String>)
    requires
        places@.len() == metas@.len(),
        forall|i: int|
            0 <= i < metas@.len() ==> (#[trigger] places@[i]).0 == layer_index_of(metas@[i].name@)
                && places@[i].1 == group_of(component_of(metas@[i].name@)),
    ensures
        texts(r@) == layer_group_names(metas@, layer, wanted),
{
    let ghost p = in_layer_group(layer, wanted);
    let mut out: Vec<String> = Vec::new();
    let mut i: usize = 0;
    assert(metas@.take(0) =~= Seq::<TensorMeta>::empty());
    assert(texts(out@) =~= names_of(keep_where(metas@.take(0), p)));
    while i < metas.len()
        invariant
            i <= metas.len(),
            places@.len() == metas@.len(),
            forall|k: int|
                0 <= k < metas@.len() ==> (#[trigger] places@[k]).0 == layer_index_of(
                    metas@[k].name@,
                ) && places@[k].1 == group_of(component_of(metas@[k].name@)),
            p == in_layer_group(layer, wanted),
            texts(out@) == names_of(keep_where(metas@.take(i as int), p)),
        decreases metas.len() - i,
    {
        let ghost before = texts(out@);
        proof {
            assert(metas@.take(i + 1) =~= metas@.take(i as int).push(metas@[i as int]));
            keep_where_push(metas@.take(i as int), p, metas@[i as int]);
        }
        let here = match places[i].0 {
            Some(l) => l == layer,
            None => false,
        };
        if here && places[i].1 == wanted {
            out.push(metas[i].name.clone());
            assert(texts(out@) =~= before.push(metas@[i as int].name@));
            assert(names_of(keep_where(metas@.take(i as int), p).push(metas@[i as int])) =~= before.push(
                metas@[i as int].name@,
            ));
        }
        i = i + 1;
    }
    assert(metas@.take(i as int) =~= metas@);
    out
}

/// The tensors of a parent by layer and component: one record for each
/// layer from 0 up to the parent's layer count, none where the count is
/// unknown.
pub fn merge_get_layer_components(parent: &ParentModel) -> (r: Vec<LayerComponentInfo>)
    ensures
        r@.len() == (match parent.layer_count {
            Some(n) => n as int,
            None => 0,
        }),
        forall|i: int|
            0 <= i < r@.len() ==> (#[trigger] r@[i]).describes(
                parent.compat.tensor_metas@,
                i as u64,
            ),
{
    let metas = &parent.compat.tensor_metas;
    let mut places: Vec<(Option<u64>, ComponentGroup)> = Vec::new();
    let mut k: usize = 0;
    while k < metas.len()
        invariant
            k <= metas.len(),
            places@.len() == k,
            forall|i: int|
                0 <= i < k ==> (#[trigger] places@[i]).0 == layer_index_of(metas@[i].name@)
                    && places@[i].1 == group_of(component_of(metas@[i].name@)),
        decreases metas.len() - k,
    {
        let name = metas[k].name.as_str();
        places.push((extract_layer_index(name), group(tensor_component(name))));
        k = k + 1;
    }
    let total: u64 = match parent.layer_count {
        Some(n) => n,
        None => 0,
    };
    let mut out: Vec<LayerComponentInfo> = Vec::new();
    let mut layer: u64 = 0;
    while layer < total
        invariant
            layer <= total,
            metas == &parent.compat.tensor_metas,
            places@.len() == metas@.len(),
            forall|i: int|
                0 <= i < metas@.len() ==> (#[trigger] places@[i]).0 == layer_index_of(
                    metas@[i].name@,
                ) && places@[i].1 == group_of(component_of(metas@[i].name@)),
            out@.len() == layer,
            forall|i: int| 0 <= i < out@.len() ==> (#[trigger] out@[i]).describes(metas@, i as u64),
        decreases total - layer,
    {
        out.push(
            LayerComponentInfo {
                layer_index: layer,
                attention_tensors: collect_group(metas, &places, layer, ComponentGroup::Attention),
                mlp_tensors: collect_group(metas, &places, layer, ComponentGroup::Mlp),
                norm_tensors: collect_group(metas, &places, layer, ComponentGroup::Norm),
                other_tensors: collect_group(metas, &places, layer, ComponentGroup::Other),
                total_params: 0,
            },
        );
        layer = layer + 1;
    }
    out
}

// ---------------------------------------------------------------------------
// Tensors side by side
// ---------------------------------------------------------------------------

/// One tensor name and the parents that have it.
#[derive(Clone, Debug)]
pub struct TensorComparisonEntry {
    pub tensor_name: String,
    pub present_in: Vec<String>,
    pub shapes_match: bool,
}

/// The tensor names of all parents side by side.
#[derive(Clone, Debug)]
pub struct TensorComparison {
    pub entries: Vec<TensorComparisonEntry>,
    pub shared_count: usize,
    pub unique_count: usize,
}

/// One listing of a tensor name by a parent.
pub struct Listing {
    pub name: Seq<char>,
    pub parent: Seq<char>,
}

/// The listings of one parent, in the order of its tensor list.
pub open spec fn listings_of(p: ParentModel) -> Seq<Listing> {
    Seq::new(
        p.compat.tensor_metas@.len(),
        |i: int| Listing { name: p.compat.tensor_metas@[i].name@, parent: p.id@ },
    )
}

/// The listings of all parents, parent after parent.
pub open spec fn all_listings(parents: Seq<ParentModel>) -> Seq<Listing>
    decreases parents.len(),
{
    if parents.len() == 0 {
        Seq::empty()
    } else {
        all_listings(parents.drop_last()) + listings_of(parents.last())
    }
}

/// The listing names `name`.
pub open spec fn lists(name: Seq<char>) -> spec_fn(Listing) -> bool {
    |l: Listing| l.name == name
}

/// The parents that list `name`, once for each listing, in their order.
pub open spec fn present_in(listings: Seq<Listing>, name: Seq<char>) -> Seq<Seq<char>> {
    keep_where(listings, lists(name)).map_values(|l: Listing| l.parent)
}

/// The names of the listings, each once, in the order in which they first
/// occur.
pub open spec fn names_once(listings: Seq<Listing>) -> Seq<Seq<char>>
    decreases listings.len(),
{
    if listings.len() == 0 {
        Seq::empty()
    } else {
        let rest = names_once(listings.drop_last());
        if rest.contains(listings.last().name) {
            rest
        } else {
            rest.push(listings.last().name)
        }
    }
}

impl TensorComparison {
    /// The comparison is that of the parents `parents`: one entry per
    /// tensor name in the order in which the names first occur, each with
    /// the parents that list the name; a name counts as shared where as
    /// many parents list it as there are parents.
    pub open spec fn describes(self, parents: Seq<ParentModel>) -> bool {
        let listings = all_listings(parents);
        let names = names_once(listings);
        &&& self.entries@.len() == names.len()
        &&& forall|i: int|
            0 <= i < names.len() ==> (#[trigger] self.entries@[i]).tensor_name@ == names[i] && texts(
                self.entries@[i].present_in@,
            ) == present_in(listings, names[i]) && self.entries@[i].shapes_match
        &&& self.shared_count == count_where(
            self.entries@,
            |e: TensorComparisonEntry| e.present_in@.len() == parents.len(),
        )
        &&& self.shared_count + self.unique_count == names.len()
    }
}

fn find_entry(entries: &Vec<TensorComparisonEntry>, name: &str) -> (r: Option<usize>)
    ensures
        match r {
            Some(i) => i < entries@.len() && entries@[i as int].tensor_name@ == name@,
            None => forall|i: int| 0 <= i < entries@.len() ==> (#[trigger] entries@[i]).tensor_name@
                != name@,
        },
{
    let mut i: usize = 0;
    while i < entries.len()
        invariant
            i <= entries.len(),
            forall|j: int| 0 <= j < i ==> (#[trigger] entries@[j]).tensor_name@ != name@,
        decreases entries.len() - i,
    {
        if str_eq(entries[i].tensor_name.as_str(), name) {
            return Some(i);
        }
        i = i + 1;
    }
    None
}

/// The entries list what the listings say.
spec fn entries_fit(entries: Seq<TensorComparisonEntry>, listings: Seq<Listing>) -> bool {
    let names = names_once(listings);
    &&& entries.len() == names.len()
    &&& forall|i: int|
        0 <= i < names.len() ==> (#[trigger] entries[i]).tensor_name@ == names[i] && texts(
            entries[i].present_in@,
        ) == present_in(listings, names[i]) && entries[i].shapes_match
}

fn add_listing(
    entries: &mut Vec<TensorComparisonEntry>,
    name: &String,
    parent: &String,
    Ghost(listings): Ghost<Seq<Listing>>,
)
    requires
        entries_fit(old(entries)@, listings),
    ensures
        entries_fit(final(entries)@, listings.push(Listing { name: name@, parent: parent@ })),
{
    let ghost next = listings.push(Listing { name: name@, parent: parent@ });
    let ghost names = names_once(listings);
    let ghost before = entries@;
    proof {
        assert(next.drop_last() =~= listings);
        assert forall|n: Seq<char>|
            present_in(next, n) == (if n == name@ {
                present_in(listings, n).push(parent@)
            } else {
                present_in(listings, n)
            }) by {
            keep_where_push(listings, lists(n), Listing { name: name@, parent: parent@ });
            if n == name@ {
                assert(present_in(next, n) =~= present_in(listings, n).push(parent@));
            }
        }
    }
    match find_entry(entries, name.as_str()) {
        Some(i) => {
            assert(names[i as int] == name@);
            assert(names.contains(name@));
            let mut entry = TensorComparisonEntry {
                tensor_name: entries[i].tensor_name.clone(),
                present_in: Vec::new(),
                shapes_match: true,
            };
            let mut k: usize = 0;
            while k < entries[i].present_in.len()
                invariant
                    i < entries@.len(),
                    entries@ == before,
                    k <= entries@[i as int].present_in@.len(),
                    entry.tensor_name@ == name@,
                    entry.shapes_match,
                    entry.present_in@.len() == k,
                    forall|j: int|
                        0 <= j < k ==> (#[trigger] entry.present_in@[j])@
                            == before[i as int].present_in@[j]@,
                decreases entries@[i as int].present_in@.len() - k,
            {
                entry.present_in.push(entries[i].present_in[k].clone());
                k = k + 1;
            }
            entry.present_in.push(parent.clone());
            proof {
                assert(texts(entry.present_in@) =~= texts(before[i as int].present_in@).push(
                    parent@,
                ));
            }
            entries[i] = entry;
            proof {
                names_once_distinct(listings);
                assert(names_once(next) == names);
                assert forall|j: int| 0 <= j < names.len() implies (#[trigger] entries@[j]).tensor_name@
                    == names[j] && texts(entries@[j].present_in@) == present_in(next, names[j])
                    && entries@[j].shapes_match by {
                    if j != i {
                        assert(entries@[j] == before[j]);
                        assert(before[j].tensor_name@ == names[j]);
                        assert(names[j] != names[i as int]);
                    }
                }
            }
        },
        None => {
            proof {
                if names.contains(name@) {
                    let w = choose|w: int| 0 <= w < names.len() && names[w] == name@;
                    assert(before[w].tensor_name@ == name@);
                }
                listed_names_occur(listings, name@);
                assert(present_in(listings, name@) =~= Seq::<Seq<char>>::empty());
            }
            let mut present: Vec<String> = Vec::new();
            present.push(parent.clone());
            assert(texts(present@) =~= Seq::<Seq<char>>::empty().push(parent@));
            entries.push(
                TensorComparisonEntry {
                    tensor_name: name.clone(),
                    present_in: present,
                    shapes_match: true,
                },
            );
            proof {
                let after = names_once(next);
                assert(after == names.push(name@));
                assert forall|j: int| 0 <= j < after.len() implies (#[trigger] entries@[j]).tensor_name@
                    == after[j] && texts(entries@[j].present_in@) == present_in(next, after[j])
                    && entries@[j].shapes_match by {
                    if j < names.len() {
                        assert(entries@[j] == before[j]);
                        assert(before[j].tensor_name@ == names[j]);
                    }
                }
            }
        },
    }
}

/// No name is listed twice among the names listed once.
proof fn names_once_distinct(listings: Seq<Listing>)
    ensures
        names_once(listings).no_duplicates(),
    decreases listings.len(),
{
    if listings.len() > 0 {
        names_once_distinct(listings.drop_last());
    }
}

/// A name that some listing has is among the names listed once; a name
/// that no listing has is listed by no parent.
proof fn listed_names_occur(listings: Seq<Listing>, name: Seq<char>)
    ensures
        names_once(listings).contains(name) <==> exists|i: int|
            0 <= i < listings.len() && (#[trigger] listings[i]).name == name,
        !names_once(listings).contains(name) ==> keep_where(listings, lists(name)).len() == 0,
    decreases listings.len(),
{
    if listings.len() > 0 {
        let rest = listings.drop_last();
        listed_names_occur(rest, name);
        let last = listings.last();
        let once = names_once(rest);
        if once.contains(last.name) {
        } else {
            assert(once.push(last.name)[once.len() as int] == last.name);
        }
        if names_once(listings).contains(name) {
            let w = choose|w: int|
                0 <= w < names_once(listings).len() && names_once(listings)[w] == name;
            if once.contains(last.name) {
            } else if w < once.len() {
                assert(once[w] == name);
                assert(once.contains(name));
            } else {
                assert(listings[listings.len() - 1].name == name);
            }
            if once.contains(name) {
                let i = choose|i: int| 0 <= i < rest.len() && (#[trigger] rest[i]).name == name;
                assert(listings[i].name == name);
            }
        }
        if exists|i: int| 0 <= i < listings.len() && (#[trigger] listings[i]).name == name {
            let i = choose|i: int| 0 <= i < listings.len() && (#[trigger] listings[i]).name == name;
            if i < rest.len() {
                assert(rest[i].name == name);
                assert(once.contains(name));
                if !once.contains(last.name) {
                    let w = choose|w: int| 0 <= w < once.len() && once[w] == name;
                    assert(once.push(last.name)[w] == name);
                }
            } else {
                assert(last.name == name);
                if once.contains(last.name) {
                } else {
                    assert(once.push(last.name)[once.len() as int] == name);
                }
            }
        }
    }
}

/// Puts the tensor names of all parents side by side.
pub fn merge_compare_tensors(registry: &ParentRegistry) -> (r: TensorComparison)
    ensures
        r.describes(registry@),
{
    let parents = registry.all();
    let mut entries: Vec<TensorComparisonEntry> = Vec::new();
    let ghost mut listings: Seq<Listing> = Seq::empty();
    let mut i: usize = 0;
    assert(parents@.take(0) =~= Seq::<ParentModel>::empty());
    while i < parents.len()
        invariant
            i <= parents.len(),
            parents@ == registry@,
            listings == all_listings(parents@.take(i as int)),
            entries_fit(entries@, listings),
        decreases parents.len() - i,
    {
        let ghost start = listings;
        let parent = &parents[i];
        let metas = &parent.compat.tensor_metas;
        let ghost own = listings_of(*parent);
        assert(parents@.take(i + 1).drop_last() =~= parents@.take(i as int));
        let mut k: usize = 0;
        assert(start + own.take(0) =~= start);
        while k < metas.len()
            invariant
                k <= metas.len(),
                metas == &parent.compat.tensor_metas,
                own == listings_of(*parent),
                listings == start + own.take(k as int),
                entries_fit(entries@, listings),
            decreases metas.len() - k,
        {
            add_listing(&mut entries, &metas[k].name, &parent.id, Ghost(listings));
            proof {
                assert(own[k as int] == Listing { name: metas@[k as int].name@, parent: parent.id@ });
                assert(start + own.take(k + 1) =~= (start + own.take(k as int)).push(own[k as int]));
                listings = listings.push(own[k as int]);
            }
            k = k + 1;
        }
        proof {
            assert(own.take(k as int) =~= own);
        }
        i = i + 1;
    }
    assert(parents@.take(i as int) =~= parents@);
    let ghost shared = |e: TensorComparisonEntry| e.present_in@.len() == parents@.len();
    let mut shared_count: usize = 0;
    let mut n: usize = 0;
    assert(entries@.take(0) =~= Seq::<TensorComparisonEntry>::empty());
    while n < entries.len()
        invariant
            n <= entries.len(),
            shared == (|e: TensorComparisonEntry| e.present_in@.len() == parents@.len()),
            shared_count == count_where(entries@.take(n as int), shared),
            shared_count <= n,
        decreases entries.len() - n,
    {
        assert(entries@.take(n + 1).drop_last() =~= entries@.take(n as int));
        if entries[n].present_in.len() == parents.len() {
            shared_count = shared_count + 1;
        }
        n = n + 1;
    }
    assert(entries@.take(n as int) =~= entries@);
    let unique_count = entries.len() - shared_count;
    TensorComparison { entries, shared_count, unique_count }
}

} // verus!
