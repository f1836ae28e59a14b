use vstd::prelude::*;

use crate::model::ArtifactId;

verus! {

broadcast use vstd::seq::group_seq_axioms;

/// The character that writes one decimal digit.
pub open spec fn digit_char(d: nat) -> char {
    if d == 0 {
        '0'
    } else if d == 1 {
        '1'
    } else if d == 2 {
        '2'
    } else if d == 3 {
        '3'
    } else if d == 4 {
        '4'
    } else if d == 5 {
        '5'
    } else if d == 6 {
        '6'
    } else if d == 7 {
        '7'
    } else if d == 8 {
        '8'
    } else {
        '9'
    }
}

/// The decimal writing of `n`, most significant digit first, no leading zeros
/// (a single zero for `n == 0`).
pub open spec fn dec_digits(n: nat) -> Seq<char>
    decreases n,
{
    if n < 10 {
        seq![digit_char(n)]
    } else {
        dec_digits(n / 10).push(digit_char(n % 10))
    }
}

fn digit_str(d: u64) -> (r: &'static str)
    requires
        d < 10,
    ensures
        r@ =~= seq![digit_char(d as nat)],
{
    proof {
        reveal_strlit("0");
        reveal_strlit("1");
        reveal_strlit("2");
        reveal_strlit("3");
        reveal_strlit("4");
        reveal_strlit("5");
        reveal_strlit("6");
        reveal_strlit("7");
        reveal_strlit("8");
        reveal_strlit("9");
    }
    if d == 0 {
        "0"
    } else if d == 1 {
        "1"
    } else if d == 2 {
        "2"
    } else if d == 3 {
        "3"
    } else if d == 4 {
        "4"
    } else if d == 5 {
        "5"
    } else if d == 6 {
        "6"
    } else if d == 7 {
        "7"
    } else if d == 8 {
        "8"
    } else {
        "9"
    }
}

/// Writes `n` in decimal.
pub fn dec_string(n: u64) -> (r: String)
    ensures
        r@ == dec_digits(n as nat),
    decreases n,
{
    if n < 10 {
        let s = String::from_str(digit_str(n));
        proof {
            assert(s@ =~= dec_digits(n as nat));
        }
        s
    } else {
        let prefix = dec_string(n / 10);
        let r = prefix.concat(digit_str(n % 10));
        proof {
            assert(r@ =~= dec_digits(n as nat));
        }
        r
    }
}

/// Reads one decimal digit back from its character.
pub open spec fn digit_val(c: char) -> nat {
    if c == '0' {
        0
    } else if c == '1' {
        1
    } else if c == '2' {
        2
    } else if c == '3' {
        3
    } else if c == '4' {
        4
    } else if c == '5' {
        5
    } else if c == '6' {
        6
    } else if c == '7' {
        7
    } else if c == '8' {
        8
    } else {
        9
    }
}

/// The number a digit string denotes.
pub open spec fn dec_val(s: Seq<char>) -> nat
    decreases s.len(),
{
    if s.len() == 0 {
        0
    } else {
        dec_val(s.drop_last()) * 10 + digit_val(s.last())
    }
}

/// Law: the decimal writing of a number reads back as that number.
pub proof fn lemma_dec_round_trip(n: nat)
    ensures
        dec_val(dec_digits(n)) == n,
    decreases n,
{
    if n < 10 {
        let s = dec_digits(n);
        assert(s == seq![digit_char(n)]);
        assert(s.last() == digit_char(n));
        assert(s.drop_last() =~= Seq::<char>::empty());
        assert(dec_val(s.drop_last()) == 0);
        assert(dec_val(s) == digit_val(digit_char(n)));
    } else {
        lemma_dec_round_trip(n / 10);
        let s = dec_digits(n);
        assert(s == dec_digits(n / 10).push(digit_char(n % 10)));
        assert(s.drop_last() =~= dec_digits(n / 10));
        assert(s.last() == digit_char(n % 10));
        assert(digit_val(digit_char(n % 10)) == n % 10);
        assert(n == (n / 10) * 10 + n % 10) by (nonlinear_arith);
    }
}

/// Law: distinct numbers have distinct decimal writings.
pub proof fn lemma_dec_injective(a: nat, b: nat)
    requires
        dec_digits(a) == dec_digits(b),
    ensures
        a == b,
{
    lemma_dec_round_trip(a);
    lemma_dec_round_trip(b);
}

/// Appending to a common prefix is cancellable.
pub proof fn lemma_concat_left_cancel(p: Seq<char>, a: Seq<char>, b: Seq<char>)
    requires
        p + a == p + b,
    ensures
        a == b,
{
    assert((p + a).len() == p.len() + a.len());
    assert((p + b).len() == p.len() + b.len());
    assert(a.len() == b.len());
    assert(a =~= (p + a).subrange(p.len() as int, (p + a).len() as int));
    assert(b =~= (p + b).subrange(p.len() as int, (p + b).len() as int));
    assert(a =~= b);
}

/// Prepending to a common suffix is cancellable.
pub proof fn lemma_concat_right_cancel(a: Seq<char>, b: Seq<char>, s: Seq<char>)
    requires
        a + s == b + s,
    ensures
        a == b,
{
    assert((a + s).len() == a.len() + s.len());
    assert((b + s).len() == b.len() + s.len());
    assert(a.len() == b.len());
    assert(a =~= (a + s).subrange(0, a.len() as int));
    assert(b =~= (b + s).subrange(0, b.len() as int));
    assert(a =~= b);
}

/// Law: the names of per-container artifacts are injective — distinct indices
/// or distinct kinds never produce the same file name under one base, so each
/// container's log and image land in files of their own.
pub proof fn law_container_artifact_names_injective(base: Seq<char>, a: ArtifactId, b: ArtifactId)
    requires
        a is ContainerLog || a is ContainerImage,
        b is ContainerLog || b is ContainerImage,
        spec_artifact_name(base, a) == spec_artifact_name(base, b),
    ensures
        a == b,
{
    reveal_strlit(".log");
    reveal_strlit("-image-info.json");
    let p = base + "-"@;
    match (a, b) {
        (ArtifactId::ContainerLog(i), ArtifactId::ContainerLog(j)) => {
            lemma_concat_right_cancel(p + dec_digits(i as nat), p + dec_digits(j as nat), ".log"@);
            lemma_concat_left_cancel(p, dec_digits(i as nat), dec_digits(j as nat));
            lemma_dec_injective(i as nat, j as nat);
        },
        (ArtifactId::ContainerImage(i), ArtifactId::ContainerImage(j)) => {
            lemma_concat_right_cancel(
                p + dec_digits(i as nat),
                p + dec_digits(j as nat),
                "-image-info.json"@,
            );
            lemma_concat_left_cancel(p, dec_digits(i as nat), dec_digits(j as nat));
            lemma_dec_injective(i as nat, j as nat);
        },
        (ArtifactId::ContainerLog(i), ArtifactId::ContainerImage(j)) => {
            let la = p + dec_digits(i as nat) + ".log"@;
            let lb = p + dec_digits(j as nat) + "-image-info.json"@;
            assert(la.last() == 'g');
            assert(lb.last() == 'n');
        },
        (ArtifactId::ContainerImage(i), ArtifactId::ContainerLog(j)) => {
            let la = p + dec_digits(i as nat) + "-image-info.json"@;
            let lb = p + dec_digits(j as nat) + ".log"@;
            assert(la.last() == 'n');
            assert(lb.last() == 'g');
        },
        _ => {},
    }
}

/// The file name under which one artifact is staged, derived from the job's
/// templated base name and, for per-container artifacts, the ordinal index.
pub open spec fn spec_artifact_name(base: Seq<char>, a: ArtifactId) -> Seq<char> {
    match a {
        ArtifactId::Dump => base + ".core.gz"@,
        ArtifactId::DumpMetadata => base + "-dump-info.json"@,
        ArtifactId::PodInfo => base + "-pod-info.json"@,
        ArtifactId::InspectPod => base + "-runtime-info.json"@,
        ArtifactId::ProcessList => base + "-ps-info.json"@,
        ArtifactId::ContainerLog(i) => base + "-"@ + dec_digits(i as nat) + ".log"@,
        ArtifactId::ContainerImage(i) => base + "-"@ + dec_digits(i as nat) + "-image-info.json"@,
    }
}

pub fn artifact_name(base: &String, a: &ArtifactId) -> (r: String)
    ensures
        r@ == spec_artifact_name(base@, *a),
{
    let r = match a {
        ArtifactId::Dump => base.clone().concat(".core.gz"),
        ArtifactId::DumpMetadata => base.clone().concat("-dump-info.json"),
        ArtifactId::PodInfo => base.clone().concat("-pod-info.json"),
        ArtifactId::InspectPod => base.clone().concat("-runtime-info.json"),
        ArtifactId::ProcessList => base.clone().concat("-ps-info.json"),
        ArtifactId::ContainerLog(i) => {
            let num = dec_string(*i as u64);
            base.clone().concat("-").concat(num.as_str()).concat(".log")
        },
        ArtifactId::ContainerImage(i) => {
            let num = dec_string(*i as u64);
            base.clone().concat("-").concat(num.as_str()).concat("-image-info.json")
        },
    };
    proof {
        assert(r@ =~= spec_artifact_name(base@, *a));
    }
    r
}

/// The archive file's own name, derived from the templated base name.
pub open spec fn spec_archive_name(base: Seq<char>) -> Seq<char> {
    base + ".tar"@
}

pub fn archive_name(base: &String) -> (r: String)
    ensures
        r@ == spec_archive_name(base@),
{
    let r = base.clone().concat(".tar");
    proof {
        assert(r@ =~= spec_archive_name(base@));
    }
    r
}

} // verus!
