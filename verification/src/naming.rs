//! Deterministic per-task file names. The saved manifest's name is derived
//! from the task id alone, and distinct ids give distinct names, so
//! concurrent tasks never collide on a path.

use vstd::prelude::*;

verus! {

pub open spec fn digit_char_of(d: nat) -> char {
    if d == 0 {
        '0'
    } else if d == 1 {
        '1'
    } else if d == 2 {
        '2'
    } else if d == 3 {
        '3'
    } else if d == 4 {
        '4'
    } else if d == 5 {
        '5'
    } else if d == 6 {
        '6'
    } else if d == 7 {
        '7'
    } else if d == 8 {
        '8'
    } else {
        '9'
    }
}

/// The decimal digits of `n`, most significant first, no leading zeros
/// (a single zero for zero itself).
pub open spec fn decimal_view(n: nat) -> Seq<char>
    decreases n,
{
    if n < 10 {
        seq![digit_char_of(n)]
    } else {
        decimal_view(n / 10).push(digit_char_of(n % 10))
    }
}

pub proof fn lemma_decimal_view_len(n: nat)
    ensures
        decimal_view(n).len() >= 1,
    decreases n,
{
    if n >= 10 {
        lemma_decimal_view_len(n / 10);
    }
}

/// Distinct numbers render to distinct digit strings.
pub proof fn lemma_decimal_view_injective(a: nat, b: nat)
    requires
        decimal_view(a) == decimal_view(b),
    ensures
        a == b,
    decreases a + b,
{
    let sa = decimal_view(a);
    let sb = decimal_view(b);
    if a < 10 && b < 10 {
        assert(sa[0] == sb[0]);
    } else if a < 10 {
        lemma_decimal_view_len(b / 10);
        assert(sa.len() == 1);
        assert(sb.len() >= 2);
    } else if b < 10 {
        lemma_decimal_view_len(a / 10);
        assert(sb.len() == 1);
        assert(sa.len() >= 2);
    } else {
        let pa = decimal_view(a / 10);
        let pb = decimal_view(b / 10);
        assert(sa.last() == digit_char_of(a % 10));
        assert(sb.last() == digit_char_of(b % 10));
        assert(a % 10 == b % 10);
        assert(pa =~= pb) by {
            assert(pa.len() == pb.len());
            assert forall|i: int| 0 <= i < pa.len() implies pa[i] == pb[i] by {
                assert(pa[i] == sa[i]);
                assert(pb[i] == sb[i]);
            }
        }
        lemma_decimal_view_injective(a / 10, b / 10);
    }
}

fn digit_str(d: u64) -> (r: &'static str)
    requires
        d < 10,
    ensures
        r@ == seq![digit_char_of(d as nat)],
{
    proof {
        reveal_strlit("0");
        reveal_strlit("1");
        reveal_strlit("2");
        reveal_strlit("3");
        reveal_strlit("4");
        reveal_strlit("5");
        reveal_strlit("6");
        reveal_strlit("7");
        reveal_strlit("8");
        reveal_strlit("9");
    }
    if d == 0 {
        "0"
    } else if d == 1 {
        "1"
    } else if d == 2 {
        "2"
    } else if d == 3 {
        "3"
    } else if d == 4 {
        "4"
    } else if d == 5 {
        "5"
    } else if d == 6 {
        "6"
    } else if d == 7 {
        "7"
    } else if d == 8 {
        "8"
    } else {
        "9"
    }
}

/// Render a number in decimal.
pub fn decimal_string(n: u64) -> (r: String)
    ensures
        r@ == decimal_view(n as nat),
    decreases n,
{
    if n < 10 {
        String::from_str(digit_str(n))
    } else {
        let mut s = decimal_string(n / 10);
        s.append(digit_str(n % 10));
        proof {
            assert(s@ =~= decimal_view((n / 10) as nat).push(digit_char_of((n % 10) as nat)));
        }
        s
    }
}

/// The deterministic name of the file the fetched manifest is saved under.
pub open spec fn manifest_name_view(id: nat) -> Seq<char> {
    "manifest_"@ + decimal_view(id) + ".manifest"@
}

pub fn manifest_file_name(id: u64) -> (r: String)
    ensures
        r@ == manifest_name_view(id as nat),
{
    let mut s = String::from_str("manifest_");
    let digits = decimal_string(id);
    s.append(digits.as_str());
    s.append(".manifest");
    proof {
        assert(s@ =~= manifest_name_view(id as nat));
    }
    s
}

/// Distinct task ids never collide on a manifest file path.
pub proof fn lemma_manifest_names_distinct(a: nat, b: nat)
    requires
        a != b,
    ensures
        manifest_name_view(a) != manifest_name_view(b),
{
    if manifest_name_view(a) == manifest_name_view(b) {
        let pre = "manifest_"@;
        let suf = ".manifest"@;
        let da = decimal_view(a);
        let db = decimal_view(b);
        let fa = pre + da + suf;
        let fb = pre + db + suf;
        assert(fa.len() == pre.len() + da.len() + suf.len());
        assert(fb.len() == pre.len() + db.len() + suf.len());
        assert(da.len() == db.len());
        assert(da =~= db) by {
            assert forall|i: int| 0 <= i < da.len() implies da[i] == db[i] by {
                assert(fa[pre.len() + i] == da[i]);
                assert(fb[pre.len() + i] == db[i]);
                assert(fa[pre.len() + i] == fb[pre.len() + i]);
            }
        }
        lemma_decimal_view_injective(a, b);
        assert(false);
    }
}

} // verus!
