//! Decisions of the Wi-Fi access point: which channel to open it on.
use vstd::prelude::*;

verus! {

/// Number of 2.4 GHz channels the access point may use (1 to 13).
pub const CHANNEL_COUNT: usize = 13;

/// The channel taken when every channel is in use: the first preferred one.
pub const FALLBACK_CHANNEL: u8 = 6;

/// The channels that do not overlap one another, in the order they are preferred.
pub open spec fn preferred_channels() -> Seq<u8> {
    seq![6u8, 1u8, 11u8]
}

/// A channel that no scanned network uses.
pub open spec fn is_unused(seen: Seq<u8>, c: int) -> bool {
    1 <= c <= CHANNEL_COUNT && !seen.contains(c as u8)
}

/// A channel that no scanned network uses and that does not overlap others.
pub open spec fn is_unused_preferred(seen: Seq<u8>, c: int) -> bool {
    is_unused(seen, c) && preferred_channels().contains(c as u8)
}

/// The channel to open the access point on, given the channels of the
/// networks that a scan found: the lowest unused channel among 1, 6 and 11;
/// else the lowest unused channel; else channel 6. Channel numbers outside
/// 1 to 13 are no channel and are passed over.
pub open spec fn spec_channel_choice(seen: Seq<u8>) -> u8 {
    if exists|c: int| is_unused_preferred(seen, c) {
        (choose|c: int| is_unused_preferred(seen, c) && forall|d: int| #[trigger] is_unused_preferred(seen, d) ==> c <= d) as u8
    } else if exists|c: int| is_unused(seen, c) {
        (choose|c: int| is_unused(seen, c) && forall|d: int| #[trigger] is_unused(seen, d) ==> c <= d) as u8
    } else {
        FALLBACK_CHANNEL
    }
}

/// The channel chosen is a channel; when one of 1, 6 and 11 is free, it is
/// the lowest free one of them; when none of them is free but some channel
/// is, it is the lowest free channel; when every channel is taken, it is 6.
pub proof fn lemma_channel_choice(seen: Seq<u8>)
    ensures
        1 <= spec_channel_choice(seen) <= CHANNEL_COUNT,
        (exists|c: int| is_unused(seen, c)) ==> is_unused(seen, spec_channel_choice(seen) as int),
        (exists|c: int| is_unused_preferred(seen, c)) ==> is_unused_preferred(
            seen,
            spec_channel_choice(seen) as int,
        ),
        (exists|c: int| is_unused_preferred(seen, c)) ==> forall|d: int|
            is_unused_preferred(seen, d) ==> spec_channel_choice(seen) <= d,
        (exists|c: int| is_unused_preferred(seen, c)) ==> {
            let r = spec_channel_choice(seen);
            &&& (r == 1 || r == 6 || r == 11)
            &&& !seen.contains(r)
            &&& forall|d: u8| (d == 1 || d == 6 || d == 11) && d < r ==> seen.contains(d)
        },
        !(exists|c: int| is_unused_preferred(seen, c)) && (exists|c: int| is_unused(seen, c)) ==> {
            let r = spec_channel_choice(seen);
            &&& !seen.contains(r)
            &&& forall|d: u8| 1 <= d < r ==> seen.contains(d)
        },
        !(exists|c: int| is_unused(seen, c)) ==> spec_channel_choice(seen) == FALLBACK_CHANNEL,
{
    if exists|c: int| is_unused_preferred(seen, c) {
        let w = choose|c: int| is_unused_preferred(seen, c);
        lemma_least_witness(seen, w, true);
        let r = spec_channel_choice(seen);
        assert(preferred_channels()[0] == 6u8);
        assert(preferred_channels()[1] == 1u8);
        assert(preferred_channels()[2] == 11u8);
        let k = choose|k: int| 0 <= k < 3 && preferred_channels()[k] == r as int as u8;
        assert(r == 1 || r == 6 || r == 11);
        assert forall|d: u8| (d == 1 || d == 6 || d == 11) && d < r implies seen.contains(d) by {
            if !seen.contains(d) {
                assert(preferred_channels().contains(d)) by {
                    if d == 6 { assert(preferred_channels()[0] == d); }
                    else if d == 1 { assert(preferred_channels()[1] == d); }
                    else { assert(preferred_channels()[2] == d); }
                }
                assert(is_unused_preferred(seen, d as int));
            }
        }
    } else if exists|c: int| is_unused(seen, c) {
        let w = choose|c: int| is_unused(seen, c);
        lemma_least_witness(seen, w, false);
        let r = spec_channel_choice(seen);
        assert forall|d: u8| 1 <= d < r implies seen.contains(d) by {
            if !seen.contains(d) {
                assert(is_unused(seen, d as int));
            }
        }
    }
}

/// Among the free channels (or the free preferred ones), there is a lowest.
proof fn lemma_least_witness(seen: Seq<u8>, w: int, preferred: bool)
    requires
        if preferred { is_unused_preferred(seen, w) } else { is_unused(seen, w) },
    ensures
        preferred ==> exists|c: int| is_unused_preferred(seen, c) && forall|d: int| #[trigger] is_unused_preferred(seen, d) ==> c <= d,
        !preferred ==> exists|c: int| is_unused(seen, c) && forall|d: int| #[trigger] is_unused(seen, d) ==> c <= d,
    decreases w,
{
    if preferred {
        if !(forall|d: int| #[trigger] is_unused_preferred(seen, d) ==> w <= d) {
            let d = choose|d: int| is_unused_preferred(seen, d) && d < w;
            lemma_least_witness(seen, d, true);
        }
    } else {
        if !(forall|d: int| #[trigger] is_unused(seen, d) ==> w <= d) {
            let d = choose|d: int| is_unused(seen, d) && d < w;
            lemma_least_witness(seen, d, false);
        }
    }
}

/// Marks the channels that the scanned networks use: entry `i` is channel `i + 1`.
fn used_channels(seen: &[u8]) -> (r: [bool; CHANNEL_COUNT])
    ensures
        forall|i: int| 0 <= i < CHANNEL_COUNT ==> r@[i] == seen@.contains((i + 1) as u8),
{
    let mut channel_list = [false; CHANNEL_COUNT];
    let mut k: usize = 0;
    while k < seen.len()
        invariant
            k <= seen@.len(),
            channel_list@.len() == CHANNEL_COUNT,
            forall|i: int| 0 <= i < CHANNEL_COUNT ==> channel_list@[i] == seen@.subrange(0, k as int).contains((i + 1) as u8),
        decreases seen@.len() - k,
    {
        let channel = seen[k];
        let ghost before = channel_list@;
        if 1 <= channel && (channel as usize) <= CHANNEL_COUNT {
            channel_list[(channel - 1) as usize] = true;
        }
        proof {
            let s0 = seen@.subrange(0, k as int);
            let s1 = seen@.subrange(0, k + 1);
            assert(s1 =~= s0.push(channel));
            assert forall|i: int| 0 <= i < CHANNEL_COUNT implies channel_list@[i] == s1.contains((i + 1) as u8) by {
                assert(s1[k as int] == channel);
                if (i + 1) as u8 == channel {
                    assert(s1.contains(channel));
                } else {
                    assert(channel_list@[i] == before[i]);
                    if s1.contains((i + 1) as u8) {
                        let j = choose|j: int| 0 <= j < s1.len() && s1[j] == (i + 1) as u8;
                        assert(j < s0.len());
                        assert(s0[j] == s1[j]);
                    }
                    if s0.contains((i + 1) as u8) {
                        let j = choose|j: int| 0 <= j < s0.len() && s0[j] == (i + 1) as u8;
                        assert(s1[j] == s0[j]);
                    }
                }
            }
        }
        k = k + 1;
    }
    assert(seen@.subrange(0, seen@.len() as int) =~= seen@);
    channel_list
}

/// Picks the channel for the access point from the channels that a scan
/// found in use.
pub fn search_for_unused_channel(seen: &[u8]) -> (r: u8)
    ensures
        r == spec_channel_choice(seen@),
        1 <= r <= CHANNEL_COUNT,
{
    let channel_list = used_channels(seen);

    // The first unused channel, counting from 1.
    let mut first_unused: Option<u8> = None;
    let mut i: usize = 0;
    while i < CHANNEL_COUNT
        invariant
            i <= CHANNEL_COUNT,
            forall|j: int| 0 <= j < CHANNEL_COUNT ==> channel_list@[j] == seen@.contains((j + 1) as u8),
            first_unused is None ==> forall|c: int| 1 <= c <= i ==> !is_unused(seen@, c),
            first_unused matches Some(c) ==> is_unused(seen@, c as int) && forall|d: int| #[trigger] is_unused(seen@, d) ==> c <= d,
        decreases CHANNEL_COUNT - i,
    {
        if first_unused.is_none() && !channel_list[i] {
            first_unused = Some((i + 1) as u8);
            assert(channel_list@[i as int] == seen@.contains((i + 1) as u8));
        }
        i = i + 1;
    }

    let first_unused_channel = match first_unused {
        Some(c) => c,
        None => {
            assert(!exists|c: int| is_unused(seen@, c));
            assert(!exists|c: int| is_unused_preferred(seen@, c));
            return FALLBACK_CHANNEL;
        },
    };

    // The first unused channel that is also a preferred one.
    let mut preferred: Option<u8> = None;
    let mut c: usize = 1;
    while c <= CHANNEL_COUNT
        invariant
            1 <= c <= CHANNEL_COUNT + 1,
            forall|j: int| 0 <= j < CHANNEL_COUNT ==> channel_list@[j] == seen@.contains((j + 1) as u8),
            preferred is None ==> forall|d: int| 1 <= d < c ==> !is_unused_preferred(seen@, d),
            preferred matches Some(p) ==> is_unused_preferred(seen@, p as int) && forall|d: int| #[trigger] is_unused_preferred(seen@, d) ==> p <= d,
        decreases CHANNEL_COUNT + 1 - c,
    {
        if preferred.is_none() && !channel_list[c - 1] && (c == 6 || c == 1 || c == 11) {
            preferred = Some(c as u8);
            assert(channel_list@[c - 1] == seen@.contains(c as u8));
            assert(preferred_channels()[0] == 6u8);
            assert(preferred_channels()[1] == 1u8);
            assert(preferred_channels()[2] == 11u8);
        }
        proof {
            if preferred is None {
                assert forall|d: int| 1 <= d < c + 1 implies !is_unused_preferred(seen@, d) by {
                    if d == c as int && is_unused_preferred(seen@, d) {
                        let k = choose|k: int| 0 <= k < 3 && preferred_channels()[k] == d as u8;
                        assert(channel_list@[c - 1] == seen@.contains(c as u8));
                    }
                }
            }
        }
        c = c + 1;
    }

    match preferred {
        Some(p) => p,
        None => {
            assert(!exists|d: int| is_unused_preferred(seen@, d));
            first_unused_channel
        },
    }
}

} // verus!
