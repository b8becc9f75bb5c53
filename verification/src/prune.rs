//! Resource reaper core: the age filter the broker sends with a prune
//! request, the duration grammar that filter uses, a model of which resources
//! such a filter selects, and the summary of what a prune call reclaimed.

use vstd::prelude::*;
use vstd::string::*;

verus! {

/// Age and dangling criteria for selecting images or containers for removal.
/// By default resources older than one hour are removed and dangling
/// resources get no special treatment.
#[derive(Debug)]
pub struct PruneFilter {
    /// A duration string such as `10m` or `1h`: resources created longer ago
    /// than this are removed.
    pub max_age: String,
    /// Whether dangling resources are removed unconditionally, regardless of
    /// age.
    pub include_dangling: bool,
}

/// The default filter: one hour, no unconditional removal of dangling
/// resources.
pub fn default_filter() -> (f: PruneFilter)
    ensures
        f.max_age@ == "1h"@,
        !f.include_dangling,
{
    PruneFilter { max_age: String::from_str("1h"), include_dangling: false }
}

/// The filter pairs sent to the runtime: an `until` entry holding the age and
/// a `dangling` entry holding the dangling policy.
pub fn filter_pairs(f: &PruneFilter) -> (v: Vec<(String, Vec<String>)>)
    ensures
        v@.len() == 2,
        v@[0].0@ == "until"@,
        v@[0].1@.len() == 1,
        v@[0].1@[0]@ == f.max_age@,
        v@[1].0@ == "dangling"@,
        v@[1].1@.len() == 1,
        v@[1].1@[0]@ == (if f.include_dangling {
            "true"@
        } else {
            "false"@
        }),
{
    let mut until_vals: Vec<String> = Vec::new();
    until_vals.push(f.max_age.clone());
    let mut dangling_vals: Vec<String> = Vec::new();
    dangling_vals.push(
        if f.include_dangling {
            String::from_str("true")
        } else {
            String::from_str("false")
        },
    );
    let mut v: Vec<(String, Vec<String>)> = Vec::new();
    v.push((String::from_str("until"), until_vals));
    v.push((String::from_str("dangling"), dangling_vals));
    v
}

/// Whether a character is a decimal digit.
pub open spec fn is_dec_digit(c: char) -> bool {
    '0' <= c && c <= '9'
}

/// The value of one decimal digit character.
pub open spec fn digit_val(c: char) -> nat {
    (c as nat - '0' as nat) as nat
}

/// The value of a digit string, most significant digit first.
pub open spec fn digits_val(s: Seq<char>) -> nat
    decreases s.len(),
{
    if s.len() == 0 {
        0
    } else {
        digits_val(s.drop_last()) * 10 + digit_val(s.last())
    }
}

/// Seconds per duration unit: seconds, minutes, hours, days.
pub open spec fn unit_seconds(c: char) -> Option<nat> {
    if c == 's' {
        Option::Some(1 as nat)
    } else if c == 'm' {
        Option::Some(60 as nat)
    } else if c == 'h' {
        Option::Some(3600 as nat)
    } else if c == 'd' {
        Option::Some(86400 as nat)
    } else {
        Option::None
    }
}

/// The duration grammar of the age filter: one or more decimal digits
/// followed by a single unit letter. A well-formed string denotes that many
/// seconds; anything else denotes nothing.
pub open spec fn spec_duration_seconds(s: Seq<char>) -> Option<int> {
    if s.len() < 2 {
        Option::None
    } else if !(forall|i: int| 0 <= i < s.len() - 1 ==> is_dec_digit(#[trigger] s[i])) {
        Option::None
    } else {
        match unit_seconds(s.last()) {
            Option::Some(u) => Option::Some((digits_val(s.drop_last()) * u) as int),
            Option::None => Option::None,
        }
    }
}

/// Parses a duration string of the age-filter grammar. Returns the denoted
/// number of seconds; a string outside the grammar, or one whose value does
/// not fit in 64 bits, yields nothing.
pub fn parse_duration(s: &str) -> (r: Option<u64>)
    ensures
        spec_duration_seconds(s@) is None ==> r is None,
        spec_duration_seconds(s@) matches Some(v) ==> (if v <= u64::MAX {
            r matches Some(x) && x == v
        } else {
            r is None
        }),
{
    let n = s.unicode_len();
    if n < 2 {
        return Option::None;
    }
    let mut acc: u64 = 0;
    let mut i: usize = 0;
    while i < n - 1
        invariant
            n == s@.len(),
            2 <= n <= usize::MAX,
            i <= n - 1,
            forall|j: int| 0 <= j < i ==> is_dec_digit(#[trigger] s@[j]),
            acc == digits_val(s@.subrange(0, i as int)),
        decreases n - 1 - i,
    {
        let c = s.get_char(i);
        if c < '0' || c > '9' {
            proof {
                assert(!is_dec_digit(s@[i as int]));
            }
            return Option::None;
        }
        let d: u64 = (c as u32 as u64) - 48;
        if acc > (u64::MAX - d) / 10 {
            // The digit string denotes more than 64 bits can hold; so does
            // the whole duration, whatever the unit.
            proof {
                lemma_digits_val_prefix_le(s@.subrange(0, s@.len() - 1), i + 1);
                assert(s@.subrange(0, s@.len() - 1).subrange(0, i + 1) =~= s@.subrange(0, i + 1));
                assert(s@.subrange(0, i + 1).drop_last() =~= s@.subrange(0, i as int));
                assert(s@.subrange(0, i + 1).last() == s@[i as int]);
                assert(digits_val(s@.subrange(0, i + 1)) == acc * 10 + d);
                assert(acc * 10 + d > u64::MAX) by (nonlinear_arith)
                    requires
                        acc > (u64::MAX - d) / 10,
                        d <= 9,
                ;
                if spec_duration_seconds(s@) is Some {
                    let u = unit_seconds(s@.last()).unwrap();
                    assert(u >= 1);
                    assert(digits_val(s@.drop_last()) * u >= digits_val(s@.drop_last()) * 1)
                        by (nonlinear_arith)
                        requires
                            u >= 1,
                    ;
                    assert(s@.drop_last() =~= s@.subrange(0, s@.len() - 1));
                }
            }
            return Option::None;
        }
        proof {
            assert(s@.subrange(0, i + 1).drop_last() =~= s@.subrange(0, i as int));
            assert(s@.subrange(0, i + 1).last() == s@[i as int]);
            assert(acc * 10 + d <= u64::MAX) by (nonlinear_arith)
                requires
                    acc <= (u64::MAX - d) / 10,
                    d <= 9,
            ;
            assert(digit_val(s@[i as int]) == d);
        }
        acc = acc * 10 + d;
        i += 1;
    }
    let unit = s.get_char(n - 1);
    proof {
        assert(s@.subrange(0, n - 1) =~= s@.drop_last());
        assert(s@.last() == s@[n - 1]);
    }
    let u: u64 = match unit {
        's' => 1,
        'm' => 60,
        'h' => 3600,
        'd' => 86400,
        _ => {
            return Option::None;
        },
    };
    if acc > u64::MAX / u {
        proof {
            assert(acc * u > u64::MAX) by (nonlinear_arith)
                requires
                    acc > u64::MAX / u,
                    1 <= u <= 86400,
            ;
        }
        return Option::None;
    }
    proof {
        assert(acc * u <= u64::MAX) by (nonlinear_arith)
            requires
                acc <= u64::MAX / u,
                1 <= u <= 86400,
        ;
    }
    Option::Some(acc * u)
}

/// A longer digit string never denotes a smaller value: the value of a prefix
/// is at most the value of the whole.
proof fn lemma_digits_val_prefix_le(s: Seq<char>, k: int)
    requires
        0 <= k <= s.len(),
    ensures
        digits_val(s.subrange(0, k)) <= digits_val(s),
    decreases s.len() - k,
{
    if k < s.len() {
        lemma_digits_val_prefix_le(s, k + 1);
        assert(s.subrange(0, k + 1).drop_last() =~= s.subrange(0, k));
        assert(digits_val(s.subrange(0, k + 1)) == digits_val(s.subrange(0, k)) * 10 + digit_val(
            s.subrange(0, k + 1).last(),
        ));
        assert(digits_val(s.subrange(0, k)) * 10 >= digits_val(s.subrange(0, k)))
            by (nonlinear_arith);
    } else {
        assert(s.subrange(0, k) =~= s);
    }
}

/// What a prune call reports back: how many resources went away and how many
/// bytes came back.
#[derive(Clone, Copy, Debug)]
pub struct PruneResult {
    pub removed_count: u64,
    pub bytes_reclaimed: u64,
}

/// A prune call failed.
#[derive(Debug)]
pub enum PruneError {
    /// The filter's age string is outside the duration grammar.
    InvalidAgeFilter(String),
    /// The runtime refused or failed the prune call.
    RuntimeFailure(String),
}

/// Addition that stops at the top of the 64-bit range instead of wrapping.
pub open spec fn sat_add_u64(a: int, b: int) -> int {
    if a + b > u64::MAX {
        u64::MAX as int
    } else {
        a + b
    }
}

/// Summarizes what the runtime reported for one prune call: the number of
/// deleted entries it listed (none listed means none deleted) and the space
/// it reclaimed.
pub fn summarize_prune(deleted: &Option<Vec<String>>, space_reclaimed: Option<u64>) -> (r:
    PruneResult)
    ensures
        r.removed_count == (match deleted {
            Option::Some(v) => v@.len() as int,
            Option::None => 0,
        }),
        r.bytes_reclaimed == (match space_reclaimed {
            Option::Some(b) => b as int,
            Option::None => 0,
        }),
{
    PruneResult {
        removed_count: match deleted {
            Option::Some(v) => v.len() as u64,
            Option::None => 0,
        },
        bytes_reclaimed: match space_reclaimed {
            Option::Some(b) => b,
            Option::None => 0,
        },
    }
}

/// Maps one prune call's answer: a summary on success, a surfaced runtime
/// failure otherwise.
pub fn prune_outcome(call_result: Result<(Option<Vec<String>>, Option<u64>), String>) -> (r: Result<
    PruneResult,
    PruneError,
>)
    ensures
        call_result matches Ok(ans) ==> r matches Ok(p) && p.removed_count == (match ans.0 {
            Option::Some(v) => v@.len() as int,
            Option::None => 0,
        }) && p.bytes_reclaimed == (match ans.1 {
            Option::Some(b) => b as int,
            Option::None => 0,
        }),
        call_result matches Err(e) ==> r == Result::<PruneResult, PruneError>::Err(
            PruneError::RuntimeFailure(e),
        ),
{
    match call_result {
        Result::Ok((deleted, space)) => Result::Ok(summarize_prune(&deleted, space)),
        Result::Err(e) => Result::Err(PruneError::RuntimeFailure(e)),
    }
}

/// One image or container as a prune call sees it: its identifier, creation
/// time (seconds since the epoch), on-disk size, and whether it is dangling.
#[derive(Debug)]
pub struct PruneCandidate {
    pub id: String,
    pub created: i64,
    pub size_bytes: u64,
    pub dangling: bool,
}

/// Whether a filter selects a candidate for removal at a given time: it is
/// older than the age bound, or it is dangling and the filter removes
/// dangling resources unconditionally.
pub open spec fn spec_selected(
    c: &PruneCandidate,
    now: int,
    max_age_seconds: int,
    include_dangling: bool,
) -> bool {
    now - c.created > max_age_seconds || (include_dangling && c.dangling)
}

/// The identifiers a filter selects out of a candidate list, in list order.
pub open spec fn spec_selected_ids(
    cs: Seq<PruneCandidate>,
    now: int,
    max_age_seconds: int,
    include_dangling: bool,
) -> Seq<Seq<char>>
    decreases cs.len(),
{
    if cs.len() == 0 {
        Seq::<Seq<char>>::empty()
    } else {
        let rest = spec_selected_ids(cs.drop_last(), now, max_age_seconds, include_dangling);
        if spec_selected(&cs.last(), now, max_age_seconds, include_dangling) {
            rest.push(cs.last().id@)
        } else {
            rest
        }
    }
}

/// The bytes the selected candidates hold, added with saturation.
pub open spec fn spec_selected_bytes(
    cs: Seq<PruneCandidate>,
    now: int,
    max_age_seconds: int,
    include_dangling: bool,
) -> int
    decreases cs.len(),
{
    if cs.len() == 0 {
        0
    } else {
        let rest = spec_selected_bytes(cs.drop_last(), now, max_age_seconds, include_dangling);
        if spec_selected(&cs.last(), now, max_age_seconds, include_dangling) {
            sat_add_u64(rest, cs.last().size_bytes as int)
        } else {
            rest
        }
    }
}

/// What a filter asks the runtime to remove: the selected identifiers and
/// the resulting summary.
#[derive(Debug)]
pub struct PrunePlan {
    pub remove_ids: Vec<String>,
    pub result: PruneResult,
}

/// Applies a filter to a candidate list at a given time: the model of what a
/// conforming runtime removes on a prune call with that filter. A filter
/// whose age string is outside the duration grammar is rejected.
pub fn prune_plan(candidates: &Vec<PruneCandidate>, now: i64, filter: &PruneFilter) -> (r: Result<
    PrunePlan,
    PruneError,
>)
    ensures
        (spec_duration_seconds(filter.max_age@) matches Some(v) && v <= u64::MAX) <==> r is Ok,
        r matches Ok(p) ==> {
            let age = spec_duration_seconds(filter.max_age@).unwrap();
            &&& p.remove_ids.deep_view() == spec_selected_ids(
                candidates@,
                now as int,
                age,
                filter.include_dangling,
            )
            &&& p.result.removed_count == p.remove_ids@.len()
            &&& p.result.bytes_reclaimed == spec_selected_bytes(
                candidates@,
                now as int,
                age,
                filter.include_dangling,
            )
        },
        r matches Err(e) ==> e matches PruneError::InvalidAgeFilter(m) && m@ == filter.max_age@,
{
    let age: u64 = match parse_duration(filter.max_age.as_str()) {
        Option::Some(a) => a,
        Option::None => {
            return Result::Err(PruneError::InvalidAgeFilter(filter.max_age.clone()));
        },
    };
    let mut remove_ids: Vec<String> = Vec::new();
    let mut bytes: u64 = 0;
    let mut i: usize = 0;
    while i < candidates.len()
        invariant
            i <= candidates@.len(),
            age <= u64::MAX,
            remove_ids.deep_view() == spec_selected_ids(
                candidates@.subrange(0, i as int),
                now as int,
                age as int,
                filter.include_dangling,
            ),
            bytes == spec_selected_bytes(
                candidates@.subrange(0, i as int),
                now as int,
                age as int,
                filter.include_dangling,
            ),
        decreases candidates@.len() - i,
    {
        proof {
            assert(candidates@.subrange(0, i + 1).drop_last() =~= candidates@.subrange(
                0,
                i as int,
            ));
            assert(candidates@.subrange(0, i + 1).last() == candidates@[i as int]);
        }
        let c = &candidates[i];
        let age_exceeded = (now as i128) - (c.created as i128) > (age as i128);
        if age_exceeded || (filter.include_dangling && c.dangling) {
            remove_ids.push(c.id.clone());
            proof {
                assert(remove_ids.deep_view() =~= spec_selected_ids(
                    candidates@.subrange(0, i as int),
                    now as int,
                    age as int,
                    filter.include_dangling,
                ).push(candidates@[i as int].id@));
            }
            bytes = if bytes <= u64::MAX - c.size_bytes {
                bytes + c.size_bytes
            } else {
                u64::MAX
            };
        }
        i += 1;
    }
    proof {
        assert(candidates@.subrange(0, candidates@.len() as int) =~= candidates@);
    }
    let count = remove_ids.len() as u64;
    Result::Ok(PrunePlan { remove_ids, result: PruneResult { removed_count: count, bytes_reclaimed: bytes } })
}

/// The combined report of pruning both resource kinds, counts and bytes
/// added with saturation.
pub fn combine_prune(a: &PruneResult, b: &PruneResult) -> (r: PruneResult)
    ensures
        r.removed_count == sat_add_u64(a.removed_count as int, b.removed_count as int),
        r.bytes_reclaimed == sat_add_u64(a.bytes_reclaimed as int, b.bytes_reclaimed as int),
{
    let removed_count = if a.removed_count <= u64::MAX - b.removed_count {
        a.removed_count + b.removed_count
    } else {
        u64::MAX
    };
    let bytes_reclaimed = if a.bytes_reclaimed <= u64::MAX - b.bytes_reclaimed {
        a.bytes_reclaimed + b.bytes_reclaimed
    } else {
        u64::MAX
    };
    PruneResult { removed_count, bytes_reclaimed }
}

} // verus!
