use vstd::prelude::*;

verus! {

/// Path segments that name a handler; any other segment (a channel id, say)
/// is replaced by `*` so that metric labels stay few.
pub open spec fn known_segment(seg: Seq<char>) -> bool {
    seg == ""@ || seg == "webchannel"@ || seg == "v1"@ || seg == "channels"@ || seg == "publish"@ || seg
        == "subscribe"@ || seg == "healthz"@ || seg == "metrics"@
}

pub open spec fn masked(seg: Seq<char>) -> Seq<char> {
    if known_segment(seg) {
        seg
    } else {
        "*"@
    }
}

/// The `/`-separated segments of `s`, in order (one more than there are slashes).
pub open spec fn segments(s: Seq<char>) -> Seq<Seq<char>>
    decreases s.len(),
{
    if s.len() == 0 {
        seq![Seq::empty()]
    } else {
        let prev = segments(s.drop_last());
        if s.last() == '/' {
            prev.push(Seq::empty())
        } else {
            prev.update(prev.len() - 1, prev.last().push(s.last()))
        }
    }
}

/// The masked segments joined by `/`.
pub open spec fn joined_label(segs: Seq<Seq<char>>) -> Seq<char>
    decreases segs.len(),
{
    if segs.len() == 0 {
        Seq::empty()
    } else if segs.len() == 1 {
        masked(segs[0])
    } else {
        joined_label(segs.drop_last()) + seq!['/'] + masked(segs.last())
    }
}

pub open spec fn endpoint_of(path: Seq<char>) -> Seq<char> {
    joined_label(segments(path))
}

proof fn lemma_segments_nonempty(s: Seq<char>)
    ensures
        segments(s).len() >= 1,
    decreases s.len(),
{
    if s.len() > 0 {
        lemma_segments_nonempty(s.drop_last());
    }
}

fn is_known_segment(seg: &str) -> (r: bool)
    ensures
        r == known_segment(seg@),
{
    let s = String::from_str(seg);
    s == String::from_str("") || s == String::from_str("webchannel") || s == String::from_str("v1") || s
        == String::from_str("channels") || s == String::from_str("publish") || s == String::from_str("subscribe")
        || s == String::from_str("healthz") || s == String::from_str("metrics")
}

fn mask_segment(seg: &str) -> (r: String)
    ensures
        r@ == masked(seg@),
{
    if is_known_segment(seg) {
        String::from_str(seg)
    } else {
        String::from_str("*")
    }
}

/// The label a request path is counted under: each segment that does not
/// name a handler becomes `*` (`/webchannel/v1/channels/abc` gives
/// `/webchannel/v1/channels/*`).
pub fn endpoint_label(path: &str) -> (r: String)
    ensures
        r@ == endpoint_of(path@),
{
    let n = path.unicode_len();
    let mut done = String::new();
    let mut start: usize = 0;
    let mut i: usize = 0;
    while i < n
        invariant
            n == path@.len(),
            start <= i <= n,
            segments(path@.subrange(0, i as int)).len() >= 1,
            segments(path@.subrange(0, i as int)).last() == path@.subrange(start as int, i as int),
            done@ == if segments(path@.subrange(0, i as int)).len() == 1 {
                Seq::<char>::empty()
            } else {
                joined_label(segments(path@.subrange(0, i as int)).drop_last()) + seq!['/']
            },
        decreases n - i,
    {
        let ghost before = path@.subrange(0, i as int);
        let ghost after = path@.subrange(0, i + 1);
        assert(after.drop_last() =~= before);
        proof {
            lemma_segments_nonempty(before);
        }
        let c = path.get_char(i);
        if c == '/' {
            let seg = path.substring_char(start, i);
            let label = mask_segment(seg);
            done.append(label.as_str());
            proof {
                reveal_strlit("/");
            }
            done.append("/");
            start = i + 1;
            proof {
                let segs = segments(before);
                assert(segments(after) == segs.push(Seq::<char>::empty()));
                assert(segments(after).drop_last() =~= segs);
                assert(path@.subrange(start as int, i + 1) =~= Seq::<char>::empty());
                if segs.len() == 1 {
                    assert(joined_label(segs) == masked(segs[0]));
                } else {
                    assert(joined_label(segs) == joined_label(segs.drop_last()) + seq!['/'] + masked(segs.last()));
                }
                assert(done@ =~= joined_label(segs) + seq!['/']);
            }
        } else {
            proof {
                let segs = segments(before);
                let next = segs.update(segs.len() - 1, segs.last().push(c));
                assert(segments(after) == next);
                assert(next.drop_last() =~= segs.drop_last());
                assert(path@.subrange(start as int, i + 1) =~= path@.subrange(start as int, i as int).push(c));
            }
        }
        i = i + 1;
    }
    let seg = path.substring_char(start, n);
    let label = mask_segment(seg);
    proof {
        let segs = segments(path@.subrange(0, n as int));
        assert(path@.subrange(0, n as int) =~= path@);
        if segs.len() == 1 {
            assert(joined_label(segs) == masked(segs[0]));
        } else {
            assert(joined_label(segs) == joined_label(segs.drop_last()) + seq!['/'] + masked(segs.last()));
        }
    }
    done.concat(label.as_str())
}

} // verus!
