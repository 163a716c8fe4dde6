use vstd::prelude::*;

verus! {

/// The lowercase hexadecimal digit for a value below sixteen.
pub open spec fn hex_digit(v: int) -> char {
    if v < 10 {
        (('0' as int) + v) as char
    } else {
        (('a' as int) + v - 10) as char
    }
}

/// The `k`-th hexadecimal digit of `id`, most significant first (`k` in `0..32`).
pub open spec fn nibble(id: u128, k: int) -> int {
    ((id >> ((124 - 4 * k) as u128)) & 15u128) as int
}

/// Whether position `i` of the hyphenated form holds a hyphen.
pub open spec fn is_hyphen_pos(i: int) -> bool {
    i == 8 || i == 13 || i == 18 || i == 23
}

/// How many hex digits precede position `i` of the hyphenated form.
pub open spec fn digit_index(i: int) -> int {
    if i < 8 {
        i
    } else if i < 13 {
        i - 1
    } else if i < 18 {
        i - 2
    } else if i < 23 {
        i - 3
    } else {
        i - 4
    }
}

/// The hyphenated lowercase text of an identifier: 32 hex digits of its
/// big-endian value in groups of 8-4-4-4-12, joined by hyphens.
pub open spec fn hyphenated(id: u128) -> Seq<char> {
    Seq::new(
        36,
        |i: int|
            if is_hyphen_pos(i) {
                '-'
            } else {
                hex_digit(nibble(id, digit_index(i)))
            },
    )
}

/// The directory every job works in, relative to the process's working directory.
pub open spec fn jobs_root() -> Seq<char> {
    seq!['j', 'o', 'b', 's', '/']
}

/// The working directory of a job: `jobs/` followed by its identifier's text.
pub open spec fn job_dir_of(id: u128) -> Seq<char> {
    jobs_root() + hyphenated(id)
}

/// Relies on `uuid::Uuid::from_u128` (big-endian bytes of the value) and on
/// `Uuid`'s `Display`, which writes the hyphenated lowercase form.
#[verifier::external_body]
fn uuid_text(id: u128) -> (r: String)
    ensures
        r@ == hyphenated(id),
{
    uuid::Uuid::from_u128(id).to_string()
}

/// The working directory of job `id`; distinct jobs never share one.
pub fn job_dir(id: u128) -> (r: String)
    ensures
        r@ == job_dir_of(id),
{
    let text = uuid_text(id);
    let mut dir = String::from_str("jobs/");
    proof {
        reveal_strlit("jobs/");
        assert(dir@ =~= jobs_root());
    }
    dir.append(text.as_str());
    dir
}

/// Distinct digit values give distinct digits.
proof fn lemma_hex_digit_injective(v: int, w: int)
    requires
        0 <= v < 16,
        0 <= w < 16,
        hex_digit(v) == hex_digit(w),
    ensures
        v == w,
{
}

/// An identifier is determined by its 32 hex digits.
proof fn lemma_nibbles_determine(a: u128, b: u128)
    requires
        forall|k: int| 0 <= k < 32 ==> #[trigger] nibble(a, k) == nibble(b, k),
    ensures
        a == b,
{
    assert(a == b) by {
        assert(nibble(a, 0) == nibble(b, 0));
        assert(nibble(a, 1) == nibble(b, 1));
        assert(nibble(a, 2) == nibble(b, 2));
        assert(nibble(a, 3) == nibble(b, 3));
        assert(nibble(a, 4) == nibble(b, 4));
        assert(nibble(a, 5) == nibble(b, 5));
        assert(nibble(a, 6) == nibble(b, 6));
        assert(nibble(a, 7) == nibble(b, 7));
        assert(nibble(a, 8) == nibble(b, 8));
        assert(nibble(a, 9) == nibble(b, 9));
        assert(nibble(a, 10) == nibble(b, 10));
        assert(nibble(a, 11) == nibble(b, 11));
        assert(nibble(a, 12) == nibble(b, 12));
        assert(nibble(a, 13) == nibble(b, 13));
        assert(nibble(a, 14) == nibble(b, 14));
        assert(nibble(a, 15) == nibble(b, 15));
        assert(nibble(a, 16) == nibble(b, 16));
        assert(nibble(a, 17) == nibble(b, 17));
        assert(nibble(a, 18) == nibble(b, 18));
        assert(nibble(a, 19) == nibble(b, 19));
        assert(nibble(a, 20) == nibble(b, 20));
        assert(nibble(a, 21) == nibble(b, 21));
        assert(nibble(a, 22) == nibble(b, 22));
        assert(nibble(a, 23) == nibble(b, 23));
        assert(nibble(a, 24) == nibble(b, 24));
        assert(nibble(a, 25) == nibble(b, 25));
        assert(nibble(a, 26) == nibble(b, 26));
        assert(nibble(a, 27) == nibble(b, 27));
        assert(nibble(a, 28) == nibble(b, 28));
        assert(nibble(a, 29) == nibble(b, 29));
        assert(nibble(a, 30) == nibble(b, 30));
        assert(nibble(a, 31) == nibble(b, 31));
        assert(a == b) by (bit_vector)
            requires
            (a >> 124u128) & 15u128 == (b >> 124u128) & 15u128,
            (a >> 120u128) & 15u128 == (b >> 120u128) & 15u128,
            (a >> 116u128) & 15u128 == (b >> 116u128) & 15u128,
            (a >> 112u128) & 15u128 == (b >> 112u128) & 15u128,
            (a >> 108u128) & 15u128 == (b >> 108u128) & 15u128,
            (a >> 104u128) & 15u128 == (b >> 104u128) & 15u128,
            (a >> 100u128) & 15u128 == (b >> 100u128) & 15u128,
            (a >> 96u128) & 15u128 == (b >> 96u128) & 15u128,
            (a >> 92u128) & 15u128 == (b >> 92u128) & 15u128,
            (a >> 88u128) & 15u128 == (b >> 88u128) & 15u128,
            (a >> 84u128) & 15u128 == (b >> 84u128) & 15u128,
            (a >> 80u128) & 15u128 == (b >> 80u128) & 15u128,
            (a >> 76u128) & 15u128 == (b >> 76u128) & 15u128,
            (a >> 72u128) & 15u128 == (b >> 72u128) & 15u128,
            (a >> 68u128) & 15u128 == (b >> 68u128) & 15u128,
            (a >> 64u128) & 15u128 == (b >> 64u128) & 15u128,
            (a >> 60u128) & 15u128 == (b >> 60u128) & 15u128,
            (a >> 56u128) & 15u128 == (b >> 56u128) & 15u128,
            (a >> 52u128) & 15u128 == (b >> 52u128) & 15u128,
            (a >> 48u128) & 15u128 == (b >> 48u128) & 15u128,
            (a >> 44u128) & 15u128 == (b >> 44u128) & 15u128,
            (a >> 40u128) & 15u128 == (b >> 40u128) & 15u128,
            (a >> 36u128) & 15u128 == (b >> 36u128) & 15u128,
            (a >> 32u128) & 15u128 == (b >> 32u128) & 15u128,
            (a >> 28u128) & 15u128 == (b >> 28u128) & 15u128,
            (a >> 24u128) & 15u128 == (b >> 24u128) & 15u128,
            (a >> 20u128) & 15u128 == (b >> 20u128) & 15u128,
            (a >> 16u128) & 15u128 == (b >> 16u128) & 15u128,
            (a >> 12u128) & 15u128 == (b >> 12u128) & 15u128,
            (a >> 8u128) & 15u128 == (b >> 8u128) & 15u128,
            (a >> 4u128) & 15u128 == (b >> 4u128) & 15u128,
            (a >> 0u128) & 15u128 == (b >> 0u128) & 15u128,
        ;
    }
}

/// Distinct jobs never share a working directory.
pub proof fn lemma_job_dirs_distinct(a: u128, b: u128)
    requires
        a != b,
    ensures
        job_dir_of(a) != job_dir_of(b),
{
    if job_dir_of(a) == job_dir_of(b) {
        assert forall|k: int| 0 <= k < 32 implies #[trigger] nibble(a, k) == nibble(b, k) by {
            let i = if k < 8 {
                k
            } else if k < 12 {
                k + 1
            } else if k < 16 {
                k + 2
            } else if k < 20 {
                k + 3
            } else {
                k + 4
            };
            assert(!is_hyphen_pos(i) && digit_index(i) == k);
            assert(job_dir_of(a)[5 + i] == hyphenated(a)[i]);
            assert(job_dir_of(b)[5 + i] == hyphenated(b)[i]);
            lemma_nibble_range(a, k);
            lemma_nibble_range(b, k);
            lemma_hex_digit_injective(nibble(a, k), nibble(b, k));
        }
        lemma_nibbles_determine(a, b);
    }
}

proof fn lemma_nibble_range(id: u128, k: int)
    ensures
        0 <= nibble(id, k) < 16,
{
    let s = (124 - 4 * k) as u128;
    assert((id >> s) & 15u128 <= 15u128) by (bit_vector);
}

} // verus!
