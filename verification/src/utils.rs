//! Small helpers shared across the crate.

use vstd::prelude::*;
use vstd::string::StringSliceAdditionalSpecFns;

verus! {

/// The next multiple of 4096 at or above `n`.
pub open spec fn spec_round_up_4k(n: int) -> int {
    ((n + 4095) / 4096) * 4096
}

/// Rounds `num` up to the next multiple of 4096.
///
/// The host page size is 4096 bytes; every mapped region and every loader
/// placement is page-granular.
pub fn round_up_4k(num: usize) -> (r: usize)
    requires
        num + 0xfff <= usize::MAX,
    ensures
        r % 4096 == 0,
        num <= r < num + 4096,
        r == spec_round_up_4k(num as int),
{
    let sum: usize = num + 0xfff;
    let r: usize = sum & !0xfff;
    proof {
        assert(r % 4096 == 0 && sum - 4095 <= r <= sum) by (bit_vector)
            requires
                r == sum & !0xfff,
        ;
        assert(r == spec_round_up_4k(num as int)) by (nonlinear_arith)
            requires
                r % 4096 == 0 && num <= r < num + 4096,
        ;
    }
    r
}

/// Rounds `num` down to a multiple of 4096.
pub fn round_down_4k(num: usize) -> (r: usize)
    ensures
        r % 4096 == 0,
        r <= num < r + 4096,
        r == num & !0xfff,
{
    let r: usize = num & !0xfff;
    proof {
        assert(r % 4096 == 0 && r <= num < r + 4096) by (bit_vector)
            requires
                r == num & !0xfff,
        ;
    }
    r
}


/// One hexadecimal digit, lower case.
pub open spec fn spec_hex_digit(v: int) -> u8 {
    if v < 10 {
        (0x30 + v) as u8
    } else {
        (0x57 + v) as u8
    }
}

/// The ASCII bytes of `v` in lower-case hexadecimal, no prefix.
pub open spec fn spec_hex_bytes(v: int) -> Seq<u8>
    decreases v,
{
    if v < 16 {
        seq![spec_hex_digit(if v < 0 { 0 } else { v })]
    } else {
        spec_hex_bytes(v / 16) + seq![spec_hex_digit(v % 16)]
    }
}

/// The ASCII bytes of `v` in decimal.
pub open spec fn spec_dec_bytes(v: int) -> Seq<u8>
    decreases v,
{
    if v < 10 {
        seq![(0x30 + (if v < 0 { 0 } else { v })) as u8]
    } else {
        spec_dec_bytes(v / 10) + seq![(0x30 + v % 10) as u8]
    }
}

/// Formats `v` in lower-case hexadecimal.
pub fn hex_bytes(v: u64) -> (r: Vec<u8>)
    ensures
        r@ == spec_hex_bytes(v as int),
    decreases v,
{
    if v < 16 {
        let d: u8 = if v < 10 {
            0x30 + (v as u8)
        } else {
            0x57 + (v as u8)
        };
        let mut r: Vec<u8> = Vec::new();
        r.push(d);
        proof {
            assert(r@ =~= spec_hex_bytes(v as int));
        }
        r
    } else {
        let mut r = hex_bytes(v / 16);
        let low: u8 = (v % 16) as u8;
        let d: u8 = if low < 10 {
            0x30 + low
        } else {
            0x57 + low
        };
        r.push(d);
        proof {
            assert(r@ =~= spec_hex_bytes(v as int));
        }
        r
    }
}

/// Formats `v` in decimal.
pub fn dec_bytes(v: u64) -> (r: Vec<u8>)
    ensures
        r@ == spec_dec_bytes(v as int),
    decreases v,
{
    if v < 10 {
        let mut r: Vec<u8> = Vec::new();
        r.push(0x30 + (v as u8));
        proof {
            assert(r@ =~= spec_dec_bytes(v as int));
        }
        r
    } else {
        let mut r = dec_bytes(v / 10);
        r.push(0x30 + ((v % 10) as u8));
        proof {
            assert(r@ =~= spec_dec_bytes(v as int));
        }
        r
    }
}

/// Appends every byte of `s` to `v`.
pub fn push_all(v: &mut Vec<u8>, s: &[u8])
    ensures
        final(v)@ == old(v)@ + s@,
{
    let mut i: usize = 0;
    while i < s.len()
        invariant
            i <= s@.len(),
            v@ == old(v)@ + s@.take(i as int),
        decreases s@.len() - i,
    {
        v.push(s[i]);
        proof {
            assert(old(v)@ + s@.take(i + 1) =~= (old(v)@ + s@.take(i as int)).push(s@[i as int]));
        }
        i = i + 1;
    }
    proof {
        assert(s@.take(s@.len() as int) =~= s@);
    }
}


/// Relies on rand's `random`: a fresh value from the host's random
/// source; nothing can be promised of it.
#[verifier::external_body]
pub fn random_u64() -> u64 {
    rand::random()
}

/// Replaces the low 32 bits of `num` with `value`.
pub fn set_u64_low(num: &mut u64, value: u32)
    ensures
        *final(num) == (*old(num) & 0xffffffff00000000) | value as u64,
{
    *num = (*num & 0xffffffff00000000) | value as u64;
}

/// Replaces the high 32 bits of `num` with `value`.
pub fn set_u64_high(num: &mut u64, value: u32)
    ensures
        *final(num) == (*old(num) & 0xffffffff) | (value as u64) << 32,
{
    *num = (*num & 0xffffffff) | (value as u64) << 32;
}


/// First position of `b` in `s` at or after `i`.
pub open spec fn spec_find_byte(s: Seq<u8>, b: u8, i: int) -> Option<int>
    decreases s.len() - i,
{
    if i < 0 || i >= s.len() {
        Option::None
    } else if s[i] == b {
        Option::Some(i)
    } else {
        spec_find_byte(s, b, i + 1)
    }
}

/// Wherever `spec_find_byte` finds `b`, the position is in range and
/// holds `b`.
pub proof fn lemma_find_byte_bounds(s: Seq<u8>, b: u8, i: int)
    ensures
        match spec_find_byte(s, b, i) {
            Option::Some(p) => i <= p < s.len() && s[p] == b,
            Option::None => true,
        },
    decreases s.len() - i,
{
    if 0 <= i < s.len() && s[i] != b {
        lemma_find_byte_bounds(s, b, i + 1);
    }
}

/// Finds the first `b` in `s` at or after `start`.
pub fn find_byte(s: &[u8], b: u8, start: usize) -> (r: Option<usize>)
    ensures
        match spec_find_byte(s@, b, start as int) {
            Option::Some(p) => r == Some(p as usize) && start <= p < s@.len() && s@[p] == b,
            Option::None => r is None,
        },
{
    proof {
        lemma_find_byte_bounds(s@, b, start as int);
    }
    let mut i: usize = start;
    loop
        invariant
            start <= i,
            spec_find_byte(s@, b, start as int) == spec_find_byte(s@, b, i as int),
        ensures
            match spec_find_byte(s@, b, start as int) {
                Option::Some(p) => p == i && i < s@.len() && s@[i as int] == b,
                Option::None => i >= s@.len(),
            },
        decreases s@.len() - i,
    {
        if i >= s.len() {
            break ;
        }
        if s[i] == b {
            break ;
        }
        i = i + 1;
    }
    if i < s.len() {
        Some(i)
    } else {
        None
    }
}

/// The value of one hex digit, or -1.
pub open spec fn spec_hex_digit_val(c: u8) -> int {
    if 0x30 <= c <= 0x39 {
        c - 0x30
    } else if 0x61 <= c <= 0x66 {
        c - 0x61 + 10
    } else if 0x41 <= c <= 0x46 {
        c - 0x41 + 10
    } else {
        -1
    }
}

/// Every byte of `s` is a hex digit and there is at least one.
pub open spec fn spec_hex_valid(s: Seq<u8>) -> bool {
    s.len() > 0 && forall|i: int| 0 <= i < s.len() ==> spec_hex_digit_val(s[i]) >= 0
}

/// The value of a hex digit string.
pub open spec fn spec_hex_val(s: Seq<u8>) -> int
    decreases s.len(),
{
    if s.len() == 0 {
        0
    } else {
        spec_hex_val(s.drop_last()) * 16 + spec_hex_digit_val(s.last())
    }
}

/// The number a policy list element parses to: its hex value when it is
/// well formed and fits `max`, and zero otherwise.
pub open spec fn spec_hex_or_zero(s: Seq<u8>, max: int) -> int {
    if spec_hex_valid(s) && spec_hex_val(s) <= max {
        spec_hex_val(s)
    } else {
        0
    }
}

proof fn lemma_hex_val_nonneg(s: Seq<u8>, i: int)
    requires
        0 <= i <= s.len(),
        forall|j: int| 0 <= j < i ==> spec_hex_digit_val(s[j]) >= 0,
    ensures
        spec_hex_val(s.take(i)) >= 0,
    decreases i,
{
    if i > 0 {
        lemma_hex_val_nonneg(s, i - 1);
        assert(s.take(i).drop_last() =~= s.take(i - 1));
        assert(spec_hex_digit_val(s.take(i).last()) >= 0);
        assert(spec_hex_val(s.take(i - 1)) * 16 >= 0) by (nonlinear_arith)
            requires
                spec_hex_val(s.take(i - 1)) >= 0,
        ;
    } else {
        assert(s.take(0) =~= Seq::<u8>::empty());
    }
}

proof fn lemma_hex_val_monotone(s: Seq<u8>, i: int)
    requires
        0 <= i <= s.len(),
        spec_hex_valid(s),
    ensures
        spec_hex_val(s.take(i)) <= spec_hex_val(s),
    decreases s.len() - i,
{
    if i < s.len() {
        lemma_hex_val_monotone(s, i + 1);
        assert(s.take(i + 1).drop_last() =~= s.take(i));
        assert(spec_hex_digit_val(s.take(i + 1).last()) >= 0);
        lemma_hex_val_nonneg(s, i);
        assert(spec_hex_val(s.take(i)) * 16 >= spec_hex_val(s.take(i))) by (nonlinear_arith)
            requires
                spec_hex_val(s.take(i)) >= 0,
        ;
    } else {
        assert(s.take(i) =~= s);
    }
}

/// Parses a hex number of at most `max`, with anything malformed or too
/// large reading as zero.
pub fn parse_hex(s: &[u8], max: u32) -> (r: u32)
    ensures
        r == spec_hex_or_zero(s@, max as int),
{
    if s.len() == 0 {
        return 0;
    }
    let mut acc: u64 = 0;
    let mut i: usize = 0;
    while i < s.len()
        invariant
            i <= s@.len(),
            s@.len() > 0,
            acc == spec_hex_val(s@.take(i as int)),
            acc <= max,
            forall|j: int| 0 <= j < i ==> spec_hex_digit_val(s@[j]) >= 0,
        decreases s@.len() - i,
    {
        let c = s[i];
        let d: u64 = if 0x30 <= c && c <= 0x39 {
            (c - 0x30) as u64
        } else if 0x61 <= c && c <= 0x66 {
            (c - 0x61 + 10) as u64
        } else if 0x41 <= c && c <= 0x46 {
            (c - 0x41 + 10) as u64
        } else {
            return 0;
        };
        proof {
            assert(s@.take(i + 1).drop_last() =~= s@.take(i as int));
        }
        let next = acc * 16 + d;
        if next > max as u64 {
            proof {
                if spec_hex_valid(s@) {
                    lemma_hex_val_monotone(s@, i + 1);
                }
            }
            return 0;
        }
        acc = next;
        i = i + 1;
    }
    proof {
        assert(s@.take(s@.len() as int) =~= s@);
    }
    acc as u32
}

/// The comma-separated policy list, each element parsed by
/// `spec_hex_or_zero`.
pub open spec fn spec_hex_list(s: Seq<u8>, max: int) -> Seq<u32>
    decreases s.len(),
    via spec_hex_list_decreases
{
    match spec_find_byte(s, 0x2c, 0) {
        Option::None => seq![spec_hex_or_zero(s, max) as u32],
        Option::Some(p) => seq![spec_hex_or_zero(s.take(p), max) as u32] + spec_hex_list(
            s.skip(p + 1),
            max,
        ),
    }
}

#[via_fn]
proof fn spec_hex_list_decreases(s: Seq<u8>, max: int) {
    lemma_find_byte_bounds(s, 0x2c, 0);
}

/// Every element of a parsed hex list lies within the bound it was
/// parsed with.
pub proof fn lemma_hex_list_bounded(s: Seq<u8>, max: int)
    requires
        0 <= max,
    ensures
        forall|k: int|
            0 <= k < spec_hex_list(s, max).len() ==> 0 <= #[trigger] spec_hex_list(s, max)[k]
                <= max,
    decreases s.len(),
{
    lemma_find_byte_bounds(s, 0x2c, 0);
    match spec_find_byte(s, 0x2c, 0) {
        Option::None => {
            assert(spec_hex_list(s, max) =~= seq![spec_hex_or_zero(s, max) as u32]);
            assert(0 <= spec_hex_or_zero(s, max) <= max) by {
                if spec_hex_valid(s) && spec_hex_val(s) <= max {
                    lemma_hex_val_nonneg(s, s.len() as int);
                    assert(s.take(s.len() as int) =~= s);
                }
            }
        },
        Option::Some(p) => {
            lemma_hex_list_bounded(s.skip(p + 1), max);
            let head = s.take(p);
            assert(0 <= spec_hex_or_zero(head, max) <= max) by {
                if spec_hex_valid(head) && spec_hex_val(head) <= max {
                    lemma_hex_val_nonneg(head, head.len() as int);
                    assert(head.take(head.len() as int) =~= head);
                }
            }
            assert forall|k: int|
                0 <= k < spec_hex_list(s, max).len() implies 0 <= #[trigger] spec_hex_list(
                s,
                max,
            )[k] <= max by {
                if k > 0 {
                    assert(spec_hex_list(s, max)[k] == spec_hex_list(s.skip(p + 1), max)[k - 1]);
                }
            }
        },
    }
}

/// Parses a comma-separated list of hex numbers.
pub fn parse_hex_list(s: &[u8], max: u32) -> (r: Vec<u32>)
    ensures
        r@ == spec_hex_list(s@, max as int),
    decreases s@.len(),
{
    match find_byte(s, 0x2c, 0) {
        None => {
            let mut r: Vec<u32> = Vec::new();
            r.push(parse_hex(s, max));
            proof {
                assert(r@ =~= spec_hex_list(s@, max as int));
            }
            r
        },
        Some(p) => {
            let n = s.len();
            let head = vstd::slice::slice_subrange(s, 0, p);
            let tail = vstd::slice::slice_subrange(s, p + 1, n);
            let first = parse_hex(head, max);
            let rest = parse_hex_list(tail, max);
            let mut r: Vec<u32> = Vec::new();
            r.push(first);
            push_all_u32(&mut r, &rest);
            proof {
                assert(head@ =~= s@.take(p as int));
                assert(tail@ =~= s@.skip(p + 1));
                assert(r@ =~= spec_hex_list(s@, max as int));
            }
            r
        },
    }
}

fn push_all_u32(v: &mut Vec<u32>, s: &Vec<u32>)
    ensures
        final(v)@ == old(v)@ + s@,
{
    let mut i: usize = 0;
    while i < s.len()
        invariant
            i <= s@.len(),
            v@ == old(v)@ + s@.take(i as int),
        decreases s@.len() - i,
    {
        v.push(s[i]);
        proof {
            assert(old(v)@ + s@.take(i + 1) =~= (old(v)@ + s@.take(i as int)).push(s@[i as int]));
        }
        i = i + 1;
    }
    proof {
        assert(s@.take(s@.len() as int) =~= s@);
    }
}

/// Whether two byte strings are equal.
pub fn eq_bytes(a: &[u8], b: &[u8]) -> (r: bool)
    ensures
        r == (a@ =~= b@),
{
    if a.len() != b.len() {
        return false;
    }
    let mut i: usize = 0;
    while i < a.len()
        invariant
            i <= a@.len(),
            a@.len() == b@.len(),
            forall|j: int| 0 <= j < i ==> a@[j] == b@[j],
        decreases a@.len() - i,
    {
        if a[i] != b[i] {
            return false;
        }
        i = i + 1;
    }
    true
}


/// The three `;`-separated fields of a policy string, when it has
/// exactly two semicolons.
pub open spec fn spec_policy_parts(s: Seq<u8>) -> Option<(Seq<u8>, Seq<u8>, Seq<u8>)> {
    match spec_find_byte(s, 0x3b, 0) {
        Option::None => Option::None,
        Option::Some(p1) => match spec_find_byte(s, 0x3b, p1 + 1) {
            Option::None => Option::None,
            Option::Some(p2) => match spec_find_byte(s, 0x3b, p2 + 1) {
                Option::Some(_) => Option::None,
                Option::None => Option::Some(
                    (s.take(p1), s.subrange(p1 + 1, p2), s.skip(p2 + 1)),
                ),
            },
        },
    }
}

/// Splits a policy string at its two semicolons; a string with any other
/// number of semicolons yields nothing.
fn policy_parts<'a>(s: &'a [u8]) -> (r: Option<(&'a [u8], &'a [u8], &'a [u8])>)
    ensures
        match (spec_policy_parts(s@), r) {
            (Option::Some(parts), Option::Some(t)) => t.0@ =~= parts.0 && t.1@ =~= parts.1 && t.2@
                =~= parts.2,
            (Option::None, Option::None) => true,
            _ => false,
        },
{
    let n = s.len();
    let p1 = match find_byte(s, 0x3b, 0) {
        Some(p) => p,
        None => {
            return None;
        },
    };
    let p2 = match find_byte(s, 0x3b, p1 + 1) {
        Some(p) => p,
        None => {
            return None;
        },
    };
    match find_byte(s, 0x3b, p2 + 1) {
        Some(_) => None,
        None => {
            let a = vstd::slice::slice_subrange(s, 0, p1);
            let b = vstd::slice::slice_subrange(s, p1 + 1, p2);
            let c = vstd::slice::slice_subrange(s, p2 + 1, n);
            Some((a, b, c))
        },
    }
}

/// Parses the unknown-port policy string `kind;list-mode;hex-ports`.
///
/// A string without exactly two semicolons yields the default policy
/// (all-ones for every unlisted port); an unknown keyword is an error;
/// the port list reads each element as hex, with malformed elements
/// reading as zero.
pub fn parse_port_policy(policy: &str) -> (r: Result<
    (crate::PortPolicy, crate::PolicyList<u16>),
    crate::err::Error,
>)
    ensures
        ({
            let s = policy@.map(|i: int, c: char| c as u8);
            match spec_policy_parts(policy.spec_bytes()) {
                Option::None => r is Ok && r->Ok_0.0 == crate::PortPolicy::AllOne && (r->Ok_0.1
                    is Except) && spec_policy_list_view16(r->Ok_0.1) =~= Seq::<u16>::empty(),
                Option::Some(parts) => {
                    if parts.0 =~= "random".spec_bytes() || parts.0 =~= "allone".spec_bytes() {
                        if parts.1 =~= "apply".spec_bytes() || parts.1 =~= "except".spec_bytes() {
                            &&& r is Ok
                            &&& r->Ok_0.0 == (if parts.0 =~= "random".spec_bytes() {
                                crate::PortPolicy::Random
                            } else {
                                crate::PortPolicy::AllOne
                            })
                            &&& (r->Ok_0.1 is Apply <==> parts.1 =~= "apply".spec_bytes())
                            &&& spec_policy_list_view16(r->Ok_0.1) =~= spec_hex_list(
                                parts.2,
                                0xffff,
                            ).map(|i: int, v: u32| v as u16)
                        } else {
                            r is Err
                        }
                    } else {
                        r is Err
                    }
                },
            }
        }),
{
    let bytes = policy.as_bytes();
    let (part0, part1, part2) = match policy_parts(bytes) {
        Some(p) => p,
        None => {
            return Ok((crate::PortPolicy::AllOne, crate::PolicyList::Except(Vec::new())));
        },
    };
    let kind = if eq_bytes(part0, "random".as_bytes()) {
        crate::PortPolicy::Random
    } else if eq_bytes(part0, "allone".as_bytes()) {
        crate::PortPolicy::AllOne
    } else {
        return Err(crate::err::Error::Program("unknown port policy".to_owned()));
    };
    let list32 = parse_hex_list(part2, 0xffff);
    proof {
        lemma_hex_list_bounded(part2@, 0xffff);
    }
    let mut list: Vec<u16> = Vec::new();
    let mut i: usize = 0;
    while i < list32.len()
        invariant
            i <= list32@.len(),
            list@.len() == i,
            forall|j: int| 0 <= j < i ==> list@[j] == list32@[j] as u16,
            forall|j: int| 0 <= j < list32@.len() ==> list32@[j] <= 0xffff,
        decreases list32@.len() - i,
    {
        list.push(#[verifier::truncate] (list32[i] as u16));
        i = i + 1;
    }
    proof {
        assert(list@ =~= list32@.map(|j: int, v: u32| v as u16));
    }
    if eq_bytes(part1, "apply".as_bytes()) {
        Ok((kind, crate::PolicyList::Apply(list)))
    } else if eq_bytes(part1, "except".as_bytes()) {
        Ok((kind, crate::PolicyList::Except(list)))
    } else {
        Err(crate::err::Error::Program("unknown port policy list mode".to_owned()))
    }
}

/// The elements of a port policy list, whichever way it applies.
pub open spec fn spec_policy_list_view16(l: crate::PolicyList<u16>) -> Seq<u16> {
    match l {
        crate::PolicyList::Apply(v) => v@,
        crate::PolicyList::Except(v) => v@,
    }
}

/// The elements of an MSR policy list, whichever way it applies.
pub open spec fn spec_policy_list_view32(l: crate::PolicyList<u32>) -> Seq<u32> {
    match l {
        crate::PolicyList::Apply(v) => v@,
        crate::PolicyList::Except(v) => v@,
    }
}

/// Parses the unknown-MSR policy string `kind;list-mode;hex-msrs`, as
/// `parse_port_policy` does for ports, with `gp` as the third kind and
/// the default.
pub fn parse_msr_policy(policy: &str) -> (r: Result<
    (crate::MsrPolicy, crate::PolicyList<u32>),
    crate::err::Error,
>)
    ensures
        ({
            match spec_policy_parts(policy.spec_bytes()) {
                Option::None => r is Ok && r->Ok_0.0 == crate::MsrPolicy::GP && (r->Ok_0.1
                    is Except) && spec_policy_list_view32(r->Ok_0.1) =~= Seq::<u32>::empty(),
                Option::Some(parts) => {
                    if parts.0 =~= "random".spec_bytes() || parts.0 =~= "allone".spec_bytes()
                        || parts.0 =~= "gp".spec_bytes() {
                        if parts.1 =~= "apply".spec_bytes() || parts.1 =~= "except".spec_bytes() {
                            &&& r is Ok
                            &&& r->Ok_0.0 == (if parts.0 =~= "random".spec_bytes() {
                                crate::MsrPolicy::Random
                            } else if parts.0 =~= "allone".spec_bytes() {
                                crate::MsrPolicy::AllOne
                            } else {
                                crate::MsrPolicy::GP
                            })
                            &&& (r->Ok_0.1 is Apply <==> parts.1 =~= "apply".spec_bytes())
                            &&& spec_policy_list_view32(r->Ok_0.1) =~= spec_hex_list(
                                parts.2,
                                0xffffffff,
                            )
                        } else {
                            r is Err
                        }
                    } else {
                        r is Err
                    }
                },
            }
        }),
{
    let bytes = policy.as_bytes();
    let (part0, part1, part2) = match policy_parts(bytes) {
        Some(p) => p,
        None => {
            return Ok((crate::MsrPolicy::GP, crate::PolicyList::Except(Vec::new())));
        },
    };
    let kind = if eq_bytes(part0, "random".as_bytes()) {
        crate::MsrPolicy::Random
    } else if eq_bytes(part0, "allone".as_bytes()) {
        crate::MsrPolicy::AllOne
    } else if eq_bytes(part0, "gp".as_bytes()) {
        crate::MsrPolicy::GP
    } else {
        return Err(crate::err::Error::Program("unknown MSR policy".to_owned()));
    };
    let list = parse_hex_list(part2, 0xffffffff);
    if eq_bytes(part1, "apply".as_bytes()) {
        Ok((kind, crate::PolicyList::Apply(list)))
    } else if eq_bytes(part1, "except".as_bytes()) {
        Ok((kind, crate::PolicyList::Except(list)))
    } else {
        Err(crate::err::Error::Program("unknown MSR policy list mode".to_owned()))
    }
}

} // verus!
