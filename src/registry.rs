//! Discovery of update requests among the stored variables, with the
//! admission cap.
use crate::record::{decode, decode_result, parse, well_formed, DecodeError, UpdateInfo, UpdateInfoView};
use vstd::prelude::*;

verus! {

/// Vendor namespace of this loader's variables
/// (0abba7dc-e516-4167-bbf5-4d9d1c739416, its 16 bytes read little-endian).
pub const FWUPDATE_GUID: u128 = 0x1694731c9d4df5bb_4167e516_0abba7dc;

/// Control variable: non-zero first byte asks for verbose output.
pub const VERBOSE_NAME: &'static str = "FWUPDATE_VERBOSE";

/// Control variable: debug log, removed at start.
pub const DEBUG_LOG_NAME: &'static str = "FWUPDATE_DEBUG_LOG";

/// Most update requests handled in one boot.
pub const MAX_UPDATES: usize = 128;

/// One stored variable as the store enumerates it. `data` holds its payload
/// where the variable is a candidate (see `classify`), and may be empty
/// otherwise.
#[derive(Debug)]
pub struct StoredVariable {
    pub name: String,
    pub vendor: u128,
    pub attributes: u32,
    pub data: Vec<u8>,
}

#[derive(Clone, Copy, Debug, PartialEq, Eq, Structural)]
pub enum KeyKind {
    /// Belongs to another vendor namespace.
    Foreign,
    /// One of this loader's control variables.
    Control,
    /// May hold an update request.
    Candidate,
}

/// An admitted update request with the place it was read from.
#[derive(Debug)]
pub struct UpdateEntry {
    pub name: String,
    pub attributes: u32,
    pub info: UpdateInfo,
}

#[derive(Clone, Copy, Debug, PartialEq, Eq, Structural)]
pub struct Rejected {
    /// Position of the variable in the enumeration.
    pub index: usize,
    pub error: DecodeError,
}

/// The update requests admitted in one boot, in enumeration order, and the
/// positions of the candidates that were skipped.
#[derive(Debug)]
pub struct Registry {
    pub entries: Vec<UpdateEntry>,
    /// Candidates seen once the cap was reached.
    pub ignored: Vec<usize>,
    /// Candidates that did not decode.
    pub rejected: Vec<Rejected>,
}

pub open spec fn is_control_name(name: Seq<char>) -> bool {
    name == VERBOSE_NAME@ || name == DEBUG_LOG_NAME@
}

pub open spec fn kind_of(name: Seq<char>, vendor: u128) -> KeyKind {
    if vendor != FWUPDATE_GUID {
        KeyKind::Foreign
    } else if is_control_name(name) {
        KeyKind::Control
    } else {
        KeyKind::Candidate
    }
}

pub open spec fn is_candidate(v: StoredVariable) -> bool {
    kind_of(v.name@, v.vendor) == KeyKind::Candidate
}

/// Positions of the admitted variables.
pub open spec fn admitted_indices(vars: Seq<StoredVariable>, cap: nat) -> Seq<usize>
    decreases vars.len(),
{
    if vars.len() == 0 {
        seq![]
    } else {
        let prev = admitted_indices(vars.drop_last(), cap);
        let v = vars.last();
        if is_candidate(v) && prev.len() < cap && well_formed(v.data@) {
            prev.push((vars.len() - 1) as usize)
        } else {
            prev
        }
    }
}

/// Positions of the candidates met once `cap` requests were admitted.
pub open spec fn ignored_indices(vars: Seq<StoredVariable>, cap: nat) -> Seq<usize>
    decreases vars.len(),
{
    if vars.len() == 0 {
        seq![]
    } else {
        let prev = ignored_indices(vars.drop_last(), cap);
        let v = vars.last();
        if is_candidate(v) && admitted_indices(vars.drop_last(), cap).len() >= cap {
            prev.push((vars.len() - 1) as usize)
        } else {
            prev
        }
    }
}

/// Positions of the candidates, below the cap, that did not decode.
pub open spec fn rejected_indices(vars: Seq<StoredVariable>, cap: nat) -> Seq<usize>
    decreases vars.len(),
{
    if vars.len() == 0 {
        seq![]
    } else {
        let prev = rejected_indices(vars.drop_last(), cap);
        let v = vars.last();
        if is_candidate(v) && admitted_indices(vars.drop_last(), cap).len() < cap
            && !well_formed(v.data@) {
            prev.push((vars.len() - 1) as usize)
        } else {
            prev
        }
    }
}

/// `e` is the entry made from variable `v`.
pub open spec fn entry_of(e: UpdateEntry, v: StoredVariable) -> bool {
    &&& e.name@ == v.name@
    &&& e.attributes == v.attributes
    &&& e.info@ == parse(v.data@)
}

pub open spec fn registry_matches(r: Registry, vars: Seq<StoredVariable>, cap: nat) -> bool {
    let adm = admitted_indices(vars, cap);
    &&& r.entries@.len() == adm.len()
    &&& forall|k: int| 0 <= k < adm.len() ==> entry_of(#[trigger] r.entries@[k], vars[adm[k] as int])
    &&& r.ignored@ == ignored_indices(vars, cap)
    &&& r.rejected@.map_values(|x: Rejected| x.index) == rejected_indices(vars, cap)
    &&& forall|k: int|
        0 <= k < r.rejected@.len() ==> #[trigger] r.rejected@[k].index < vars.len()
            && decode_result(vars[r.rejected@[k].index as int].data@) == Err::<
            UpdateInfoView,
            DecodeError,
        >(r.rejected@[k].error)
}

fn names_equal(a: &String, b: &str) -> (r: bool)
    ensures
        r == (a@ == b@),
{
    let b_owned = b.to_string();
    proof {
        vstd::string::to_string_from_display_ensures_for_str(b, b_owned);
    }
    *a == b_owned
}

/// Tells a variable of this loader's namespace from a foreign one, and a
/// control variable from a possible update request.
pub fn classify(name: &String, vendor: u128) -> (r: KeyKind)
    ensures
        r == kind_of(name@, vendor),
{
    if vendor != FWUPDATE_GUID {
        KeyKind::Foreign
    } else if names_equal(name, VERBOSE_NAME) || names_equal(name, DEBUG_LOG_NAME) {
        KeyKind::Control
    } else {
        KeyKind::Candidate
    }
}

proof fn lemma_admitted_bounds(vars: Seq<StoredVariable>, cap: nat)
    ensures
        admitted_indices(vars, cap).len() <= cap,
        admitted_indices(vars, cap).len() <= vars.len(),
        forall|k: int|
            0 <= k < admitted_indices(vars, cap).len() ==> #[trigger] admitted_indices(
                vars,
                cap,
            )[k] < vars.len(),
    decreases vars.len(),
{
    if vars.len() > 0 {
        lemma_admitted_bounds(vars.drop_last(), cap);
    }
}

/// Walks the enumerated variables in order, decoding each candidate until
/// `cap` requests are admitted; later candidates are only recorded as
/// ignored. Nothing is sorted, written or deleted.
pub fn collect_updates(vars: &Vec<StoredVariable>, cap: usize) -> (r: Registry)
    ensures
        registry_matches(r, vars@, cap as nat),
{
    let mut r = Registry { entries: Vec::new(), ignored: Vec::new(), rejected: Vec::new() };
    let mut i: usize = 0;
    assert(r.rejected@.map_values(|x: Rejected| x.index) =~= Seq::<usize>::empty());
    assert(vars@.subrange(0, 0) =~= Seq::<StoredVariable>::empty());
    while i < vars.len()
        invariant
            i <= vars@.len(),
            registry_matches(r, vars@.subrange(0, i as int), cap as nat),
        decreases vars@.len() - i,
    {
        let ghost pre = vars@.subrange(0, i as int);
        let ghost cur = vars@.subrange(0, i + 1);
        assert(cur.drop_last() =~= pre);
        proof {
            lemma_admitted_bounds(pre, cap as nat);
        }
        let v = &vars[i];
        if classify(&v.name, v.vendor) == KeyKind::Candidate {
            if r.entries.len() >= cap {
                r.ignored.push(i);
            } else {
                match decode(v.data.as_slice()) {
                    Ok(info) => {
                        let e = UpdateEntry {
                            name: v.name.clone(),
                            attributes: v.attributes,
                            info,
                        };
                        r.entries.push(e);
                    },
                    Err(error) => {
                        let ghost old_rej = r.rejected@;
                        r.rejected.push(Rejected { index: i, error });
                        assert(r.rejected@.map_values(|x: Rejected| x.index) =~= old_rej.map_values(
                            |x: Rejected| x.index,
                        ).push(i));
                    },
                }
            }
        }
        i = i + 1;
        assert(registry_matches(r, cur, cap as nat));
    }
    assert(vars@.subrange(0, vars@.len() as int) =~= vars@);
    r
}

/// With only well-formed update requests enumerated, the first `cap` of them
/// are admitted, the others are ignored, and none is rejected.
proof fn lemma_all_requests(vars: Seq<StoredVariable>, cap: nat)
    requires
        forall|i: int| 0 <= i < vars.len() ==> is_candidate(#[trigger] vars[i]) && well_formed(vars[i].data@),
    ensures
        vars.len() <= cap ==> admitted_indices(vars, cap) == Seq::new(vars.len(), |i: int| i as usize),
        vars.len() > cap ==> admitted_indices(vars, cap) == Seq::new(cap, |i: int| i as usize),
        vars.len() <= cap ==> ignored_indices(vars, cap) == Seq::<usize>::empty(),
        vars.len() > cap ==> ignored_indices(vars, cap) == Seq::new(
            (vars.len() - cap) as nat,
            |i: int| (cap + i) as usize,
        ),
        rejected_indices(vars, cap) == Seq::<usize>::empty(),
    decreases vars.len(),
{
    if vars.len() > 0 {
        let pre = vars.drop_last();
        assert forall|i: int| 0 <= i < pre.len() implies is_candidate(#[trigger] pre[i]) && well_formed(pre[i].data@) by {
            assert(pre[i] == vars[i]);
        }
        lemma_all_requests(pre, cap);
        assert(is_candidate(vars[vars.len() - 1]));
        if vars.len() <= cap {
            assert(admitted_indices(vars, cap) =~= Seq::new(vars.len(), |i: int| i as usize));
        } else if vars.len() == cap + 1 {
            assert(admitted_indices(vars, cap) =~= Seq::new(cap, |i: int| i as usize));
            assert(ignored_indices(vars, cap) =~= Seq::new(
                (vars.len() - cap) as nat,
                |i: int| (cap + i) as usize,
            ));
        } else {
            assert(ignored_indices(vars, cap) =~= Seq::new(
                (vars.len() - cap) as nat,
                |i: int| (cap + i) as usize,
            ));
        }
    }
}

/// Admission cap: of more than `cap` well-formed update requests, exactly
/// `cap` are admitted, the first ones in enumeration order, and the other
/// `N - cap` are ignored.
pub proof fn lemma_admission_cap(vars: Seq<StoredVariable>, cap: nat)
    requires
        forall|i: int| 0 <= i < vars.len() ==> is_candidate(#[trigger] vars[i]) && well_formed(vars[i].data@),
        vars.len() > cap,
        vars.len() <= usize::MAX,
    ensures
        admitted_indices(vars, cap).len() == cap,
        ignored_indices(vars, cap).len() == vars.len() - cap,
        forall|k: int| 0 <= k < cap ==> #[trigger] admitted_indices(vars, cap)[k] == k,
        forall|k: int| 0 <= k < vars.len() - cap ==> #[trigger] ignored_indices(vars, cap)[k] == cap + k,
{
    lemma_all_requests(vars, cap);
    assert forall|k: int| 0 <= k < cap implies #[trigger] admitted_indices(vars, cap)[k] == k by {
        assert(Seq::new(cap, |i: int| i as usize)[k] == k as usize);
    }
    assert forall|k: int| 0 <= k < vars.len() - cap implies #[trigger] ignored_indices(vars, cap)[k]
        == cap + k by {
        assert(Seq::new((vars.len() - cap) as nat, |i: int| (cap + i) as usize)[k] == (cap + k) as usize);
    }
}

/// A control variable is never admitted, whatever its payload.
pub proof fn lemma_control_never_admitted(vars: Seq<StoredVariable>, cap: nat, k: int)
    requires
        0 <= k < admitted_indices(vars, cap).len(),
        vars.len() <= usize::MAX,
    ensures
        !is_control_name(vars[admitted_indices(vars, cap)[k] as int].name@),
        vars[admitted_indices(vars, cap)[k] as int].vendor == FWUPDATE_GUID,
    decreases vars.len(),
{
    let pre = vars.drop_last();
    let adm = admitted_indices(vars, cap);
    if k < admitted_indices(pre, cap).len() {
        lemma_control_never_admitted(pre, cap, k);
        lemma_admitted_bounds(pre, cap);
        assert(adm[k] == admitted_indices(pre, cap)[k]);
        assert(pre[adm[k] as int] == vars[adm[k] as int]);
    } else {
        assert(adm[k] == (vars.len() - 1) as usize);
        assert(is_candidate(vars.last()));
    }
}

pub open spec fn is_control(v: StoredVariable) -> bool {
    kind_of(v.name@, v.vendor) == KeyKind::Control
}

/// The store as enumerated, without this loader's control variables.
pub open spec fn without_controls(vars: Seq<StoredVariable>) -> Seq<StoredVariable> {
    vars.filter(|v: StoredVariable| !is_control(v))
}

/// The admitted variables, in enumeration order.
pub open spec fn admitted_variables(vars: Seq<StoredVariable>, cap: nat) -> Seq<StoredVariable> {
    admitted_indices(vars, cap).map_values(|i: usize| vars[i as int])
}

proof fn lemma_admitted_variables_step(vars: Seq<StoredVariable>, cap: nat)
    requires
        vars.len() > 0,
        vars.len() <= usize::MAX,
    ensures
        admitted_variables(vars, cap) == if admitted_indices(vars, cap).len()
            > admitted_indices(vars.drop_last(), cap).len() {
            admitted_variables(vars.drop_last(), cap).push(vars.last())
        } else {
            admitted_variables(vars.drop_last(), cap)
        },
{
    let pre = vars.drop_last();
    lemma_admitted_bounds(pre, cap);
    let adm = admitted_indices(vars, cap);
    let adm_pre = admitted_indices(pre, cap);
    if adm.len() > adm_pre.len() {
        assert(admitted_variables(vars, cap) =~= admitted_variables(pre, cap).push(vars.last()));
    } else {
        assert(admitted_variables(vars, cap) =~= admitted_variables(pre, cap));
    }
}

/// Control variables take no part in admission, whatever their payload:
/// the store without them admits the same variables in the same order, and
/// ignores and rejects as many candidates.
pub proof fn lemma_controls_do_not_count(vars: Seq<StoredVariable>, cap: nat)
    requires
        vars.len() <= usize::MAX,
    ensures
        admitted_variables(without_controls(vars), cap) == admitted_variables(vars, cap),
        ignored_indices(without_controls(vars), cap).len() == ignored_indices(vars, cap).len(),
        rejected_indices(without_controls(vars), cap).len() == rejected_indices(vars, cap).len(),
    decreases vars.len(),
{
    reveal(Seq::filter);
    let keep = |v: StoredVariable| !is_control(v);
    if vars.len() > 0 {
        let pre = vars.drop_last();
        let f = without_controls(vars);
        let fp = without_controls(pre);
        lemma_controls_do_not_count(pre, cap);
        vars.lemma_filter_len(keep);
        pre.lemma_filter_len(keep);
        lemma_admitted_variables_step(vars, cap);
        assert(admitted_indices(fp, cap).len() == admitted_indices(pre, cap).len()) by {
            assert(admitted_variables(fp, cap).len() == admitted_indices(fp, cap).len());
            assert(admitted_variables(pre, cap).len() == admitted_indices(pre, cap).len());
        }
        if keep(vars.last()) {
            assert(f == fp.push(vars.last()));
            assert(f.drop_last() =~= fp);
            assert(f.last() == vars.last());
            lemma_admitted_variables_step(f, cap);
        } else {
            assert(f == fp);
        }
    }
}

} // verus!
