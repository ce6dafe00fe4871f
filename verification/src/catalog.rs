use vstd::prelude::*;
use vstd::string::{StrSliceExecFns, StringExecFns};

use crate::text::{dec_str, usize_to_string};

verus! {

/// The three resource kinds, in the fixed order the catalog walks them.
#[derive(Clone, Copy, Debug, PartialEq, Eq, Structural)]
pub enum PimKind {
    Group,
    AadRole,
    Role,
}

/// One activation request, fully parameterized, ready to be submitted to the
/// owning identity service.
pub enum ActivationCall {
    Group {
        reason: String,
        duration: String,
        group_id: String,
        role_assignment_id: String,
        role_definition_id: String,
    },
    AadRole {
        reason: String,
        duration: String,
        tenant_id: String,
        role_assignment_id: String,
        role_definition_id: String,
    },
    Role {
        reason: String,
        duration: String,
        scope: String,
        role_definition_id: String,
        role_assignment_id: String,
    },
}

/// The capability contract every eligible item offers the catalog: a category
/// key for display clustering, a human-facing label, the audience whose token
/// must be warm before activation, and its own activation request.
pub trait Pim: Sized {
    /// The category key used for display clustering.
    spec fn spec_group_key(&self) -> Seq<char>;

    /// The human-facing line for this item.
    spec fn spec_label(&self) -> Seq<char>;

    /// The audience whose token activation will present.
    spec fn spec_token_resource(&self) -> Seq<char>;

    /// Whether `call` is the activation request this item submits for the
    /// given justification and duration.
    spec fn spec_call(&self, call: ActivationCall, reason: Seq<char>, duration: Seq<char>) -> bool;

    fn group_by(&self) -> (r: String)
        ensures
            r@ == self.spec_group_key(),
    ;

    fn resource_id(&self) -> (r: String)
        ensures
            r@ == self.spec_label(),
    ;

    fn token_resource(&self) -> (r: &'static str)
        ensures
            r@ == self.spec_token_resource(),
    ;

    fn activate(&self, reason: String, duration: String) -> (r: ActivationCall)
        ensures
            self.spec_call(r, reason@, duration@),
    ;
}

/// The display-clustering keys of a list of items.
pub open spec fn spec_keys<T: Pim>(pims: Seq<T>) -> Seq<Seq<char>> {
    pims.map_values(|p: T| p.spec_group_key())
}

/// The human-facing labels of a list of items.
pub open spec fn spec_labels<T: Pim>(pims: Seq<T>) -> Seq<Seq<char>> {
    pims.map_values(|p: T| p.spec_label())
}

/// `runs` is the adjacency-only grouping of `keys`: contiguous maximal
/// stretches of equal neighbouring keys, in input order. Equal keys that are
/// not adjacent stay in separate runs.
pub open spec fn is_adjacent_grouping(keys: Seq<Seq<char>>, runs: Seq<(usize, usize)>) -> bool {
    &&& (keys.len() == 0 ==> runs.len() == 0)
    &&& (keys.len() > 0 ==> runs.len() > 0 && runs[0].0 == 0 && runs[runs.len() - 1].1
        == keys.len())
    &&& (forall|i: int| 0 <= i < runs.len() ==> (#[trigger] runs[i]).0 < runs[i].1 <= keys.len())
    &&& (forall|i: int| 0 <= i < runs.len() - 1 ==> (#[trigger] runs[i]).1 == runs[i + 1].0)
    &&& (forall|i: int, j: int|
        0 <= i < runs.len() && (#[trigger] runs[i]).0 < j < runs[i].1 ==> keys[j - 1]
            == #[trigger] keys[j])
    &&& (forall|i: int| 0 < i < runs.len() ==> keys[(#[trigger] runs[i]).0 - 1] != keys[runs[i].0 as int])
}

/// Clusters adjacent items with equal `group_by` keys, in the order the list
/// was produced. This is not a partition by key: equal keys separated by a
/// different key come out as separate runs.
pub fn group<T: Pim>(pims: &Vec<T>) -> (r: Vec<(usize, usize)>)
    ensures
        is_adjacent_grouping(spec_keys(pims@), r@),
{
    let ghost keys = spec_keys(pims@);
    let n = pims.len();
    let mut runs: Vec<(usize, usize)> = Vec::new();
    if n == 0 {
        return runs;
    }
    let mut start: usize = 0;
    let mut j: usize = 1;
    while j < n
        invariant
            1 <= j <= n,
            n == pims@.len(),
            0 <= start < j,
            keys == spec_keys(pims@),
            keys.len() == n,
            start == 0 ==> runs@.len() == 0,
            start > 0 ==> runs@.len() > 0 && runs@[0].0 == 0 && runs@[runs@.len() - 1].1 == start,
            forall|i: int| 0 <= i < runs@.len() ==> (#[trigger] runs@[i]).0 < runs@[i].1 <= start,
            forall|i: int| 0 <= i < runs@.len() - 1 ==> (#[trigger] runs@[i]).1 == runs@[i + 1].0,
            forall|i: int, k: int|
                0 <= i < runs@.len() && (#[trigger] runs@[i]).0 < k < runs@[i].1 ==> keys[k - 1]
                    == #[trigger] keys[k],
            forall|i: int|
                0 < i < runs@.len() ==> keys[(#[trigger] runs@[i]).0 - 1] != keys[runs@[i].0 as int],
            forall|k: int| start < k < j ==> keys[k - 1] == #[trigger] keys[k],
            start == 0 || keys[start - 1] != keys[start as int],
        decreases n - j,
    {
        let same = pims[j].group_by() == pims[j - 1].group_by();
        if !same {
            runs.push((start, j));
            start = j;
        }
        j = j + 1;
    }
    runs.push((start, n));
    proof {
        assert(is_adjacent_grouping(keys, runs@));
    }
    runs
}

/// One indexed member line of the printed catalog: the running 1-based index,
/// a dot and a tab, then the item's label.
pub open spec fn member_line(pos: int, label: Seq<char>) -> Seq<char> {
    dec_str(pos) + ".\t"@ + label
}

/// The printed lines for the items from `j` on: each maximal run of equal
/// keys contributes its shared key once, then one indexed member line per
/// item, the running index continuing from `base`.
pub open spec fn listing_from(
    keys: Seq<Seq<char>>,
    labels: Seq<Seq<char>>,
    base: int,
    j: int,
) -> Seq<Seq<char>>
    decreases keys.len() - j,
{
    if j < 0 || j >= keys.len() {
        Seq::empty()
    } else {
        let head: Seq<Seq<char>> = if j == 0 || keys[j - 1] != keys[j] {
            seq![keys[j]]
        } else {
            Seq::empty()
        };
        head + seq![member_line(base + j + 1, labels[j])] + listing_from(keys, labels, base, j + 1)
    }
}

/// The views of a list of printed lines.
pub open spec fn line_views(lines: Seq<String>) -> Seq<Seq<char>> {
    lines.map_values(|s: String| s@)
}

/// Prints one kind's grouped items and records them in the flat index: each
/// new run's shared key on a line of its own, then every item on an indexed
/// line, while `index` receives the kind and offset of each item in order.
pub fn print_and_add<T: Pim>(
    pims: &Vec<T>,
    kind: PimKind,
    index: &mut Vec<(PimKind, usize)>,
    lines: &mut Vec<String>,
)
    requires
        old(index)@.len() + pims@.len() <= usize::MAX,
    ensures
        final(index)@ == old(index)@ + Seq::new(pims@.len(), |j: int| (kind, j as usize)),
        line_views(final(lines)@) == line_views(old(lines)@) + listing_from(
            spec_keys(pims@),
            spec_labels(pims@),
            old(index)@.len() as int,
            0,
        ),
{
    let ghost keys = spec_keys(pims@);
    let ghost labels = spec_labels(pims@);
    let ghost base = old(index)@.len() as int;
    let ghost index0 = old(index)@;
    let ghost lines0 = line_views(old(lines)@);
    let n = pims.len();
    let mut j: usize = 0;
    proof {
        assert(index@ =~= index0 + Seq::new(0, |k: int| (kind, k as usize)));
    }
    while j < n
        invariant
            0 <= j <= n,
            n == pims@.len(),
            keys == spec_keys(pims@),
            labels == spec_labels(pims@),
            keys.len() == n,
            labels.len() == n,
            base == index0.len(),
            base + n <= usize::MAX,
            index@ == index0 + Seq::new(j as nat, |k: int| (kind, k as usize)),
            index@.len() == base + j,
            line_views(lines@) + listing_from(keys, labels, base, j as int) == lines0
                + listing_from(keys, labels, base, 0),
        decreases n - j,
    {
        let ghost lines_before = line_views(lines@);
        let emit = if j == 0 {
            true
        } else {
            let same = pims[j].group_by() == pims[j - 1].group_by();
            !same
        };
        proof {
            assert(keys[j as int] == pims@[j as int].spec_group_key());
        }
        if emit {
            let key = pims[j].group_by();
            lines.push(key);
            proof {
                assert(line_views(lines@) =~= lines_before + seq![keys[j as int]]);
            }
        }
        index.push((kind, j));
        proof {
            assert(index@ =~= index0 + Seq::new((j + 1) as nat, |k: int| (kind, k as usize)));
        }
        let ghost lines_mid = line_views(lines@);
        let pos = index.len();
        let mut line = usize_to_string(pos);
        line.append(".\t");
        let lab = pims[j].resource_id();
        line.append(lab.as_str());
        proof {
            assert(line@ == member_line(base + j + 1, labels[j as int]));
        }
        lines.push(line);
        proof {
            assert(line_views(lines@) =~= lines_mid + seq![member_line(base + j + 1, labels[j as int])]);
            let head: Seq<Seq<char>> = if j == 0 || keys[j as int - 1] != keys[j as int] {
                seq![keys[j as int]]
            } else {
                Seq::empty()
            };
            assert(lines_mid =~= lines_before + head);
            assert(listing_from(keys, labels, base, j as int) == head + seq![
                member_line(base + j + 1, labels[j as int]),
            ] + listing_from(keys, labels, base, j as int + 1));
            assert(line_views(lines@) + listing_from(keys, labels, base, j as int + 1) =~= (
            lines_before + listing_from(keys, labels, base, j as int)));
        }
        j = j + 1;
    }
    proof {
        assert(listing_from(keys, labels, base, n as int) =~= Seq::<Seq<char>>::empty());
        assert(line_views(lines@) =~= line_views(lines@) + listing_from(keys, labels, base, n as int));
    }
}

} // verus!
