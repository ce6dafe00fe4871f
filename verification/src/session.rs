use vstd::prelude::*;
use vstd::string::{StrSliceExecFns, StringExecFns};

use crate::aad_roles::AadRolePim;
use crate::catalog::{
    line_views, listing_from, print_and_add, spec_keys, spec_labels, ActivationCall, Pim, PimKind,
};
use crate::errors::PimError;
use crate::group::GroupPim;
use crate::role::RolePim;
use crate::text::{find_char, lemma_find_char_at, parse_usize_token, split_on, token_value};

verus! {

/// The interactive command's switches.
pub struct PimArgs {
    pub refresh: bool,
}

/// The merged catalog of every eligible item, held in the fixed kind order in
/// which it is printed and indexed: group memberships, then directory-wide
/// roles, then resource-scoped roles. Selection indices are 1-based positions
/// in this concatenation and are valid only for the current run.
pub struct Catalog {
    pub groups: Vec<GroupPim>,
    pub aad_roles: Vec<AadRolePim>,
    pub roles: Vec<RolePim>,
}

impl Catalog {
    pub open spec fn spec_len(&self) -> int {
        self.groups@.len() + self.aad_roles@.len() + self.roles@.len() as int
    }

    pub fn len(&self) -> (r: usize)
        requires
            self.spec_len() <= usize::MAX,
        ensures
            r == self.spec_len(),
    {
        self.groups.len() + self.aad_roles.len() + self.roles.len()
    }

    /// Whether `call` is the activation request of the item at 0-based
    /// position `i` of the concatenated catalog.
    pub open spec fn spec_call_at(
        &self,
        i: int,
        call: ActivationCall,
        reason: Seq<char>,
        duration: Seq<char>,
    ) -> bool {
        if i < self.groups@.len() {
            self.groups@[i].spec_call(call, reason, duration)
        } else if i < self.groups@.len() + self.aad_roles@.len() {
            self.aad_roles@[i - self.groups@.len()].spec_call(call, reason, duration)
        } else {
            self.roles@[i - self.groups@.len() - self.aad_roles@.len()].spec_call(
                call,
                reason,
                duration,
            )
        }
    }

    /// The audience whose token the item at 0-based position `i` presents.
    pub open spec fn spec_token_resource_at(&self, i: int) -> Seq<char> {
        if i < self.groups@.len() {
            self.groups@[i].spec_token_resource()
        } else if i < self.groups@.len() + self.aad_roles@.len() {
            self.aad_roles@[i - self.groups@.len()].spec_token_resource()
        } else {
            self.roles@[i - self.groups@.len() - self.aad_roles@.len()].spec_token_resource()
        }
    }

    /// Builds the activation request of the item the operator selected under
    /// the 1-based index `sel`.
    pub fn activate_at(&self, sel: usize, reason: &str, duration: &str) -> (r: ActivationCall)
        requires
            1 <= sel <= self.spec_len(),
        ensures
            self.spec_call_at(sel - 1, r, reason@, duration@),
    {
        let i = sel - 1;
        if i < self.groups.len() {
            self.groups[i].activate(reason.to_owned(), duration.to_owned())
        } else if i - self.groups.len() < self.aad_roles.len() {
            self.aad_roles[i - self.groups.len()].activate(reason.to_owned(), duration.to_owned())
        } else {
            self.roles[i - self.groups.len() - self.aad_roles.len()].activate(
                reason.to_owned(),
                duration.to_owned(),
            )
        }
    }

    /// The audience to warm for the item selected under the 1-based `sel`.
    pub fn token_resource_at(&self, sel: usize) -> (r: &'static str)
        requires
            1 <= sel <= self.spec_len(),
        ensures
            r@ == self.spec_token_resource_at(sel - 1),
    {
        let i = sel - 1;
        if i < self.groups.len() {
            self.groups[i].token_resource()
        } else if i - self.groups.len() < self.aad_roles.len() {
            self.aad_roles[i - self.groups.len()].token_resource()
        } else {
            self.roles[i - self.groups.len() - self.aad_roles.len()].token_resource()
        }
    }

    /// The printed catalog and its flat index: the three kinds walked in
    /// fixed order, each kind's items clustered by adjacent equal keys, with
    /// one running 1-based index across all three kinds.
    pub fn render(&self) -> (r: (Vec<String>, Vec<(PimKind, usize)>))
        requires
            self.spec_len() <= usize::MAX,
        ensures
            r.1@ == Seq::new(self.groups@.len(), |j: int| (PimKind::Group, j as usize)) + Seq::new(
                self.aad_roles@.len(),
                |j: int| (PimKind::AadRole, j as usize),
            ) + Seq::new(self.roles@.len(), |j: int| (PimKind::Role, j as usize)),
            line_views(r.0@) == listing_from(
                spec_keys(self.groups@),
                spec_labels(self.groups@),
                0,
                0,
            ) + listing_from(
                spec_keys(self.aad_roles@),
                spec_labels(self.aad_roles@),
                self.groups@.len() as int,
                0,
            ) + listing_from(
                spec_keys(self.roles@),
                spec_labels(self.roles@),
                self.groups@.len() + self.aad_roles@.len() as int,
                0,
            ),
    {
        let mut lines: Vec<String> = Vec::new();
        let mut index: Vec<(PimKind, usize)> = Vec::new();
        proof {
            assert(line_views(lines@) =~= Seq::<Seq<char>>::empty());
        }
        print_and_add(&self.groups, PimKind::Group, &mut index, &mut lines);
        print_and_add(&self.aad_roles, PimKind::AadRole, &mut index, &mut lines);
        print_and_add(&self.roles, PimKind::Role, &mut index, &mut lines);
        proof {
            assert(index@ =~= Seq::new(self.groups@.len(), |j: int| (PimKind::Group, j as usize))
                + Seq::new(self.aad_roles@.len(), |j: int| (PimKind::AadRole, j as usize))
                + Seq::new(self.roles@.len(), |j: int| (PimKind::Role, j as usize)));
            assert(line_views(lines@) =~= listing_from(
                spec_keys(self.groups@),
                spec_labels(self.groups@),
                0,
                0,
            ) + listing_from(
                spec_keys(self.aad_roles@),
                spec_labels(self.aad_roles@),
                self.groups@.len() as int,
                0,
            ) + listing_from(
                spec_keys(self.roles@),
                spec_labels(self.roles@),
                self.groups@.len() + self.aad_roles@.len() as int,
                0,
            ));
        }
        (lines, index)
    }
}

/// Law (independent activation): what the catalog submits for one selected
/// position depends on the item at that position alone. Whatever happens to
/// any other item — a different record, or a failing activation at its
/// service — cannot change or withhold this item's request.
pub proof fn lemma_activation_independent(
    c1: Catalog,
    c2: Catalog,
    i: int,
    call: ActivationCall,
    reason: Seq<char>,
    duration: Seq<char>,
)
    requires
        0 <= i < c1.spec_len(),
        c1.groups@.len() == c2.groups@.len(),
        c1.aad_roles@.len() == c2.aad_roles@.len(),
        c1.roles@.len() == c2.roles@.len(),
        i < c1.groups@.len() ==> c1.groups@[i] == c2.groups@[i],
        c1.groups@.len() <= i < c1.groups@.len() + c1.aad_roles@.len() ==> c1.aad_roles@[i
            - c1.groups@.len()] == c2.aad_roles@[i - c1.groups@.len()],
        c1.groups@.len() + c1.aad_roles@.len() <= i ==> c1.roles@[i - c1.groups@.len()
            - c1.aad_roles@.len()] == c2.roles@[i - c1.groups@.len() - c1.aad_roles@.len()],
    ensures
        c1.spec_call_at(i, call, reason, duration) == c2.spec_call_at(i, call, reason, duration),
{
}

/// Whether one comma-separated token denotes a valid 1-based catalog index.
pub open spec fn selection_token_ok(t: Seq<char>, n: int) -> bool {
    match token_value(t) {
        Some(v) => 1 <= v <= n,
        None => false,
    }
}

/// Whether the operator's whole reply is a valid selection for a catalog of
/// `n` items: every comma-separated token numeric and in range.
pub open spec fn selection_ok(s: Seq<char>, n: int) -> bool {
    forall|i: int|
        0 <= i < split_on(s, ',').len() ==> selection_token_ok(#[trigger] split_on(s, ',')[i], n)
}

/// Splits the reply on commas, keeping every (possibly empty) token.
fn split_list(s: &str) -> (r: Vec<String>)
    ensures
        r@.map_values(|t: String| t@) == split_on(s@, ','),
{
    let n = s.unicode_len();
    let mut out: Vec<String> = Vec::new();
    let mut pos: usize = 0;
    let mut j: usize = 0;
    proof {
        assert(s@.skip(0) =~= s@);
        assert(out@.map_values(|t: String| t@) =~= Seq::<Seq<char>>::empty());
    }
    while j < n
        invariant
            0 <= pos <= j <= n,
            n == s@.len(),
            forall|k: int| pos <= k < j ==> s@[k] != ',',
            split_on(s@, ',') == out@.map_values(|t: String| t@) + split_on(
                s@.skip(pos as int),
                ',',
            ),
        decreases n - j,
    {
        let c = s.get_char(j);
        if c == ',' {
            let ghost out_views = out@.map_values(|t: String| t@);
            let tok = s.substring_char(pos, j);
            out.push(tok.to_owned());
            proof {
                let rest = s@.skip(pos as int);
                assert forall|k: int| 0 <= k < j - pos implies rest[k] != ',' by {
                    assert(s@[pos + k] != ',');
                }
                lemma_find_char_at(rest, ',', j - pos);
                assert(rest.take(j - pos) =~= s@.subrange(pos as int, j as int));
                assert(rest.skip(j - pos + 1) =~= s@.skip(j as int + 1));
                assert(out@.map_values(|t: String| t@) =~= out_views + seq![tok@]);
                assert(out@.map_values(|t: String| t@) + split_on(s@.skip(j as int + 1), ',')
                    =~= out_views + split_on(rest, ','));
            }
            pos = j + 1;
        }
        j = j + 1;
    }
    let ghost out_views = out@.map_values(|t: String| t@);
    let tok = s.substring_char(pos, n);
    out.push(tok.to_owned());
    proof {
        let rest = s@.skip(pos as int);
        assert forall|k: int| 0 <= k < n - pos implies rest[k] != ',' by {
            assert(s@[pos + k] != ',');
        }
        lemma_find_char_at(rest, ',', n - pos);
        assert(rest =~= s@.subrange(pos as int, n as int));
        assert(out@.map_values(|t: String| t@) =~= out_views + seq![tok@]);
        assert(out@.map_values(|t: String| t@) =~= out_views + split_on(rest, ','));
    }
    out
}

/// Parses the operator's selection reply into 1-based catalog indices. Every
/// comma-separated token must be numeric and fall inside the catalog's range,
/// or the whole reply is rejected as operator error.
pub fn parse_selection(s: &str, catalog_len: usize) -> (r: Result<Vec<usize>, PimError>)
    ensures
        r is Ok <==> selection_ok(s@, catalog_len as int),
        r is Ok ==> r.unwrap()@.len() == split_on(s@, ',').len(),
        r is Ok ==> forall|i: int|
            0 <= i < split_on(s@, ',').len() ==> (#[trigger] r.unwrap()@[i]) as int == token_value(
                split_on(s@, ',')[i],
            ).unwrap(),
        r is Err ==> r == Err::<Vec<usize>, PimError>(PimError::UserInputFailure),
{
    let parts = split_list(s);
    let ghost toks = split_on(s@, ',');
    let m = parts.len();
    let mut sel: Vec<usize> = Vec::new();
    let mut i: usize = 0;
    while i < m
        invariant
            0 <= i <= m,
            m == parts@.len(),
            toks == split_on(s@, ','),
            parts@.map_values(|t: String| t@) == toks,
            toks.len() == m,
            sel@.len() == i,
            forall|k: int| 0 <= k < i ==> selection_token_ok(#[trigger] toks[k], catalog_len as int),
            forall|k: int|
                0 <= k < i ==> (#[trigger] sel@[k]) as int == token_value(toks[k]).unwrap(),
        decreases m - i,
    {
        proof {
            assert(parts@[i as int]@ == toks[i as int]);
        }
        match parse_usize_token(parts[i].as_str()) {
            Some(v) => {
                if 1 <= v && v <= catalog_len {
                    sel.push(v);
                } else {
                    proof {
                        assert(!selection_token_ok(split_on(s@, ',')[i as int], catalog_len as int));
                    }
                    return Err(PimError::UserInputFailure);
                }
            },
            None => {
                proof {
                    assert(!selection_token_ok(split_on(s@, ',')[i as int], catalog_len as int));
                }
                return Err(PimError::UserInputFailure);
            },
        }
        i = i + 1;
    }
    Ok(sel)
}

/// Builds the activation request of every selected item, one per selection in
/// order. No request depends on any other selected item, and no failure of
/// one activation can withhold another's request: each call stands alone.
pub fn plan_activations(
    catalog: &Catalog,
    selected: &Vec<usize>,
    reason: &str,
    duration: &str,
) -> (r: Vec<ActivationCall>)
    requires
        forall|i: int| 0 <= i < selected@.len() ==> 1 <= #[trigger] selected@[i] <= catalog.spec_len(),
    ensures
        r@.len() == selected@.len(),
        forall|i: int|
            0 <= i < selected@.len() ==> catalog.spec_call_at(
                selected@[i] - 1,
                #[trigger] r@[i],
                reason@,
                duration@,
            ),
{
    let n = selected.len();
    let mut r: Vec<ActivationCall> = Vec::new();
    let mut i: usize = 0;
    while i < n
        invariant
            0 <= i <= n,
            n == selected@.len(),
            r@.len() == i,
            forall|k: int|
                0 <= k < n ==> 1 <= #[trigger] selected@[k] <= catalog.spec_len(),
            forall|k: int|
                0 <= k < i ==> catalog.spec_call_at(
                    selected@[k] - 1,
                    #[trigger] r@[k],
                    reason@,
                    duration@,
                ),
        decreases n - i,
    {
        let call = catalog.activate_at(selected[i], reason, duration);
        r.push(call);
        i = i + 1;
    }
    r
}

/// The audiences to warm, one per selected item in order, while the duration
/// and justification prompts run.
pub fn warmup_resources(catalog: &Catalog, selected: &Vec<usize>) -> (r: Vec<&'static str>)
    requires
        forall|i: int| 0 <= i < selected@.len() ==> 1 <= #[trigger] selected@[i] <= catalog.spec_len(),
    ensures
        r@.len() == selected@.len(),
        forall|i: int|
            0 <= i < selected@.len() ==> (#[trigger] r@[i])@ == catalog.spec_token_resource_at(
                selected@[i] - 1,
            ),
{
    let n = selected.len();
    let mut r: Vec<&'static str> = Vec::new();
    let mut i: usize = 0;
    while i < n
        invariant
            0 <= i <= n,
            n == selected@.len(),
            r@.len() == i,
            forall|k: int|
                0 <= k < n ==> 1 <= #[trigger] selected@[k] <= catalog.spec_len(),
            forall|k: int|
                0 <= k < i ==> (#[trigger] r@[k])@ == catalog.spec_token_resource_at(
                    selected@[k] - 1,
                ),
        decreases n - i,
    {
        let uri = catalog.token_resource_at(selected[i]);
        r.push(uri);
        i = i + 1;
    }
    r
}

} // verus!
