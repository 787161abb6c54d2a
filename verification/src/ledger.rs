//! The ledger of installed packages: an ordered list of records, at most one
//! per package name. Reading and writing the ledger file is the caller's
//! business; the record-list operations here are pure.

use vstd::prelude::*;
use crate::text::str_eq;

verus! {

/// One installed package, as recorded in the ledger.
pub struct InstalledPackage {
    pub name: String,
    pub source: Option<String>,
    pub build_system: String,
    pub location: String,
    pub build_file: Option<String>,
    pub hash: Option<String>,
    pub version: Option<String>,
    pub last_commit_hash: Option<String>,
    pub install_date: Option<String>,
    pub last_commit_date: Option<String>,
}

/// The records of `l` whose name is not `name`, in order.
pub open spec fn spec_remove_name(l: Seq<InstalledPackage>, name: Seq<char>) -> Seq<
    InstalledPackage,
> {
    l.filter(|p: InstalledPackage| p.name@ != name)
}

/// Some record of `l` carries `name`.
pub open spec fn spec_has_name(l: Seq<InstalledPackage>, name: Seq<char>) -> bool {
    exists|i: int| 0 <= i < l.len() && l[i].name@ == name
}

/// Insert-or-replace by name: any record with the new record's name goes,
/// and the new record is appended.
pub open spec fn spec_upsert(l: Seq<InstalledPackage>, pkg: InstalledPackage) -> Seq<
    InstalledPackage,
> {
    spec_remove_name(l, pkg.name@).push(pkg)
}

/// No two records of `l` carry the same name.
pub open spec fn unique_names(l: Seq<InstalledPackage>) -> bool {
    forall|i: int, j: int| 0 <= i < j < l.len() ==> l[i].name@ != l[j].name@
}

/// Insert `pkg`, replacing any record with the same name.
#[verifier::loop_isolation(false)]
pub fn upsert(ledger: Vec<InstalledPackage>, pkg: InstalledPackage) -> (r: Vec<InstalledPackage>)
    ensures
        r@ == spec_upsert(ledger@, pkg),
{
    let ghost orig = ledger@;
    let ghost pred = |p: InstalledPackage| p.name@ != pkg.name@;
    let total = ledger.len();
    let mut rest = ledger;
    let mut out: Vec<InstalledPackage> = Vec::new();
    let mut i: usize = 0;
    proof {
        reveal(Seq::filter);
        assert(orig.take(0) =~= Seq::<InstalledPackage>::empty());
        assert(rest@ =~= orig.skip(0));
    }
    while rest.len() > 0
        invariant
            total == orig.len(),
            i + rest@.len() == total,
            rest@ == orig.skip(i as int),
            out@ == orig.take(i as int).filter(pred),
        decreases rest.len(),
    {
        let p = rest.remove(0);
        let keep = !str_eq(p.name.as_str(), pkg.name.as_str());
        if keep {
            out.push(p);
        }
        proof {
            reveal(Seq::filter);
            assert(p == orig[i as int]);
            assert(rest@ =~= orig.skip(i + 1));
            assert(orig.take(i + 1).drop_last() =~= orig.take(i as int));
            assert(orig.take(i + 1).last() == p);
            if pred(p) {
                assert(orig.take(i + 1).filter(pred) == orig.take(i as int).filter(pred).push(p));
            } else {
                assert(orig.take(i + 1).filter(pred) == orig.take(i as int).filter(pred));
            }
        }
        i += 1;
    }
    proof {
        assert(orig.take(orig.len() as int) =~= orig);
    }
    out.push(pkg);
    out
}

/// Delete the record named `name`; `None` exactly when no record has it.
#[verifier::loop_isolation(false)]
pub fn delete(ledger: Vec<InstalledPackage>, name: &str) -> (r: Option<Vec<InstalledPackage>>)
    ensures
        match r {
            Some(v) => spec_has_name(ledger@, name@) && v@ == spec_remove_name(ledger@, name@),
            None => !spec_has_name(ledger@, name@),
        },
{
    let ghost orig = ledger@;
    let ghost pred = |p: InstalledPackage| p.name@ != name@;
    let total = ledger.len();
    let mut rest = ledger;
    let mut out: Vec<InstalledPackage> = Vec::new();
    let mut found = false;
    let mut i: usize = 0;
    proof {
        reveal(Seq::filter);
        assert(orig.take(0) =~= Seq::<InstalledPackage>::empty());
        assert(rest@ =~= orig.skip(0));
    }
    while rest.len() > 0
        invariant
            total == orig.len(),
            i + rest@.len() == total,
            rest@ == orig.skip(i as int),
            out@ == orig.take(i as int).filter(pred),
            found == spec_has_name(orig.take(i as int), name@),
        decreases rest.len(),
    {
        let p = rest.remove(0);
        let same = str_eq(p.name.as_str(), name);
        if same {
            found = true;
        } else {
            out.push(p);
        }
        proof {
            reveal(Seq::filter);
            assert(p == orig[i as int]);
            assert(rest@ =~= orig.skip(i + 1));
            assert(orig.take(i + 1).drop_last() =~= orig.take(i as int));
            assert(orig.take(i + 1).last() == p);
            if pred(p) {
                assert(orig.take(i + 1).filter(pred) == orig.take(i as int).filter(pred).push(p));
            } else {
                assert(orig.take(i + 1).filter(pred) == orig.take(i as int).filter(pred));
            }
            if same {
                assert(orig.take(i + 1)[i as int].name@ == name@);
            } else if found {
                let k = choose|k: int| 0 <= k < i && orig.take(i as int)[k].name@ == name@;
                assert(orig.take(i + 1)[k].name@ == name@);
            } else {
                assert forall|k: int|
                    0 <= k < orig.take(i + 1).len() implies #[trigger] orig.take(i + 1)[k].name@
                    != name@ by {
                    assert(orig.take(i + 1)[k] == orig[k]);
                    if k < i {
                        assert(orig.take(i as int)[k] == orig[k]);
                    }
                }
            }
        }
        i += 1;
    }
    proof {
        assert(orig.take(orig.len() as int) =~= orig);
    }
    if found {
        Some(out)
    } else {
        None
    }
}

/// Deleting a name that no record carries keeps every record: the ledger the
/// caller would write back is the ledger it read.
pub proof fn lemma_delete_absent(l: Seq<InstalledPackage>, name: Seq<char>)
    requires
        !spec_has_name(l, name),
    ensures
        spec_remove_name(l, name) == l,
    decreases l.len(),
{
    reveal(Seq::filter);
    if l.len() > 0 {
        assert forall|i: int| 0 <= i < l.drop_last().len() implies l.drop_last()[i].name@
            != name by {
            assert(l.drop_last()[i] == l[i]);
        }
        lemma_delete_absent(l.drop_last(), name);
        assert(l[l.len() - 1].name@ != name);
        assert(spec_remove_name(l, name) =~= l);
    }
}

proof fn lemma_filter_idempotent(s: Seq<InstalledPackage>, pred: spec_fn(InstalledPackage) -> bool)
    ensures
        s.filter(pred).filter(pred) == s.filter(pred),
    decreases s.len(),
{
    reveal(Seq::filter);
    if s.len() > 0 {
        let sub = s.drop_last().filter(pred);
        lemma_filter_idempotent(s.drop_last(), pred);
        if pred(s.last()) {
            assert(sub.push(s.last()).drop_last() =~= sub);
        }
    }
}

/// Upsert is idempotent: installing the very same record twice leaves the
/// ledger exactly as installing it once does.
pub proof fn lemma_upsert_idempotent(l: Seq<InstalledPackage>, pkg: InstalledPackage)
    ensures
        spec_upsert(spec_upsert(l, pkg), pkg) == spec_upsert(l, pkg),
{
    reveal(Seq::filter);
    let pred = |p: InstalledPackage| p.name@ != pkg.name@;
    let once = l.filter(pred);
    assert(once.push(pkg).drop_last() =~= once);
    lemma_filter_idempotent(l, pred);
}

proof fn lemma_filter_none(s: Seq<InstalledPackage>, p1: spec_fn(InstalledPackage) -> bool, p2: spec_fn(InstalledPackage) -> bool)
    requires
        forall|x: InstalledPackage| !(#[trigger] p1(x) && p2(x)),
    ensures
        s.filter(p1).filter(p2) == Seq::<InstalledPackage>::empty(),
    decreases s.len(),
{
    reveal(Seq::filter);
    if s.len() > 0 {
        let sub = s.drop_last().filter(p1);
        lemma_filter_none(s.drop_last(), p1, p2);
        if p1(s.last()) {
            assert(sub.push(s.last()).drop_last() =~= sub);
        }
    }
}

/// After an upsert the records carrying the new record's name are exactly
/// the one new record: the second install's fields replace the first's.
pub proof fn lemma_upsert_one_record(l: Seq<InstalledPackage>, pkg: InstalledPackage)
    ensures
        spec_upsert(l, pkg).filter(|p: InstalledPackage| p.name@ == pkg.name@) == seq![pkg],
{
    reveal(Seq::filter);
    let pred = |p: InstalledPackage| p.name@ != pkg.name@;
    let same = |p: InstalledPackage| p.name@ == pkg.name@;
    let once = l.filter(pred);
    assert(once.push(pkg).drop_last() =~= once);
    lemma_filter_none(l, pred, same);
    assert(spec_upsert(l, pkg).filter(same) =~= seq![pkg]);
}

proof fn lemma_filter_keeps_unique_names(
    l: Seq<InstalledPackage>,
    pred: spec_fn(InstalledPackage) -> bool,
)
    requires
        unique_names(l),
    ensures
        unique_names(l.filter(pred)),
        forall|i: int|
            0 <= i < l.filter(pred).len() ==> spec_has_name(
                l,
                #[trigger] l.filter(pred)[i].name@,
            ),
    decreases l.len(),
{
    reveal(Seq::filter);
    broadcast use Seq::lemma_filter_len;

    if l.len() > 0 {
        let dl = l.drop_last();
        let f = l.filter(pred);
        let sub = dl.filter(pred);
        assert forall|a: int, b: int| 0 <= a < b < dl.len() implies dl[a].name@ != dl[b].name@ by {
            assert(dl[a] == l[a] && dl[b] == l[b]);
        }
        lemma_filter_keeps_unique_names(dl, pred);
        assert forall|i: int| 0 <= i < sub.len() implies spec_has_name(l, sub[i].name@) by {
            let k = choose|k: int| 0 <= k < dl.len() && dl[k].name@ == sub[i].name@;
            assert(l[k].name@ == sub[i].name@);
        }
        if pred(l.last()) {
            assert(f == sub.push(l.last()));
            assert forall|i: int, j: int| 0 <= i < j < f.len() implies f[i].name@ != f[j].name@ by {
                if j == f.len() - 1 {
                    assert(f[i] == sub[i]);
                    let k = choose|k: int| 0 <= k < dl.len() && dl[k].name@ == sub[i].name@;
                    assert(l[k].name@ == sub[i].name@);
                    assert(l[k].name@ != l[l.len() - 1].name@);
                } else {
                    assert(f[i] == sub[i] && f[j] == sub[j]);
                }
            }
            assert(l[l.len() - 1].name@ == f[f.len() - 1].name@);
        }
    }
}

/// Upsert keeps names unique: from a well-formed ledger it never makes one
/// with two records of the same name.
pub proof fn lemma_upsert_unique_names(l: Seq<InstalledPackage>, pkg: InstalledPackage)
    requires
        unique_names(l),
    ensures
        unique_names(spec_upsert(l, pkg)),
{
    let pred = |p: InstalledPackage| p.name@ != pkg.name@;
    let kept = l.filter(pred);
    let out = spec_upsert(l, pkg);
    lemma_filter_keeps_unique_names(l, pred);
    assert forall|i: int, j: int| 0 <= i < j < out.len() implies out[i].name@ != out[j].name@ by {
        l.lemma_filter_pred(pred, i);
        assert(out[i] == kept[i]);
        if j < out.len() - 1 {
            assert(out[j] == kept[j]);
        } else {
            assert(out[j] == pkg);
        }
    }
}

} // verus!
