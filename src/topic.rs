use vstd::prelude::*;

verus! {

/// The channel (and topic) name `<exchange>:<marketType>:<symbol>:<streamType>`.
pub open spec fn channel_name(
    exchange: Seq<char>,
    market_type: Seq<char>,
    symbol: Seq<char>,
    stream_type: Seq<char>,
) -> Seq<char> {
    exchange + seq![':'] + market_type + seq![':'] + symbol + seq![':'] + stream_type
}

/// A segment that can stand between two separators.
pub open spec fn no_colon(s: Seq<char>) -> bool {
    forall|i: int| 0 <= i < s.len() ==> s[i] != ':'
}

/// The pieces of `s` between its `:` separators, as `str::split(':')` yields them:
/// an empty string is one empty piece, and each separator starts a new piece.
pub open spec fn split_colon(s: Seq<char>) -> Seq<Seq<char>>
    decreases s.len(),
{
    if s.len() == 0 {
        seq![Seq::<char>::empty()]
    } else {
        let r = split_colon(s.drop_last());
        if s.last() == ':' {
            r.push(Seq::<char>::empty())
        } else {
            r.update(r.len() - 1, r.last().push(s.last()))
        }
    }
}

/// The pieces joined back with `:` between each two.
pub open spec fn join_colon(parts: Seq<Seq<char>>) -> Seq<char>
    decreases parts.len(),
{
    if parts.len() <= 1 {
        if parts.len() == 1 { parts[0] } else { Seq::<char>::empty() }
    } else {
        join_colon(parts.drop_last()) + seq![':'] + parts.last()
    }
}

proof fn lemma_split_nonempty(s: Seq<char>)
    ensures
        split_colon(s).len() >= 1,
    decreases s.len(),
{
    if s.len() > 0 {
        lemma_split_nonempty(s.drop_last());
    }
}

/// Splitting and joining again gives back the string.
proof fn lemma_join_split(s: Seq<char>)
    ensures
        join_colon(split_colon(s)) == s,
    decreases s.len(),
{
    if s.len() > 0 {
        let t = s.drop_last();
        let r = split_colon(t);
        lemma_join_split(t);
        lemma_split_nonempty(t);
        if s.last() == ':' {
            let q = r.push(Seq::<char>::empty());
            assert(q.drop_last() =~= r);
            assert(join_colon(q) == join_colon(r) + seq![':'] + Seq::<char>::empty());
            assert(s =~= t + seq![':']);
        } else {
            let q = r.update(r.len() - 1, r.last().push(s.last()));
            if r.len() == 1 {
                assert(s =~= t.push(s.last()));
            } else {
                assert(q.drop_last() =~= r.drop_last());
                assert(join_colon(r) == join_colon(r.drop_last()) + seq![':'] + r.last());
                assert(q.last() == r.last().push(s.last()));
                assert(join_colon(q) == join_colon(q.drop_last()) + seq![':'] + q.last());
                assert(t =~= join_colon(r.drop_last()) + seq![':'] + r.last());
                assert(s =~= t.push(s.last()));
                assert(s =~= join_colon(r.drop_last()) + seq![':'] + r.last().push(s.last()));
            }
        }
    }
}

/// Splitting `a + ":" + b` splits `a` and `b` apart.
proof fn lemma_split_append(a: Seq<char>, b: Seq<char>)
    ensures
        split_colon(a + seq![':'] + b) == split_colon(a) + split_colon(b),
    decreases b.len(),
{
    let s = a + seq![':'] + b;
    if b.len() == 0 {
        assert(s.drop_last() =~= a);
        assert(split_colon(b) =~= seq![Seq::<char>::empty()]);
        assert(split_colon(a).push(Seq::<char>::empty()) =~= split_colon(a) + split_colon(b));
    } else {
        lemma_split_append(a, b.drop_last());
        lemma_split_nonempty(b.drop_last());
        lemma_split_nonempty(a);
        assert(s.drop_last() =~= a + seq![':'] + b.drop_last());
        assert(s.last() == b.last());
        let ra = split_colon(a);
        let rb = split_colon(b.drop_last());
        if b.last() == ':' {
            assert((ra + rb).push(Seq::<char>::empty()) =~= ra + rb.push(Seq::<char>::empty()));
        } else {
            assert((ra + rb).update((ra + rb).len() - 1, (ra + rb).last().push(b.last())) =~= ra
                + rb.update(rb.len() - 1, rb.last().push(b.last())));
        }
    }
}

/// A string without separators is a single piece.
proof fn lemma_split_single(s: Seq<char>)
    requires
        no_colon(s),
    ensures
        split_colon(s) == seq![s],
    decreases s.len(),
{
    if s.len() > 0 {
        let t = s.drop_last();
        assert(no_colon(t));
        lemma_split_single(t);
        assert(s.last() == s[s.len() - 1]);
        assert(t.push(s.last()) =~= s);
        assert(seq![t].update(0, t.push(s.last())) =~= seq![s]);
    } else {
        assert(s =~= Seq::<char>::empty());
    }
}

/// Channel naming and topic decomposition are mutual inverses: the name built
/// from four separator-free parts splits back into exactly those parts, and a
/// topic that splits into four parts is the name built from them.
pub proof fn lemma_channel_topic_inverse(
    exchange: Seq<char>,
    market_type: Seq<char>,
    symbol: Seq<char>,
    stream_type: Seq<char>,
    topic: Seq<char>,
)
    requires
        no_colon(exchange),
        no_colon(market_type),
        no_colon(symbol),
        no_colon(stream_type),
    ensures
        split_colon(channel_name(exchange, market_type, symbol, stream_type)) == seq![
            exchange,
            market_type,
            symbol,
            stream_type,
        ],
        split_colon(topic).len() == 4 ==> channel_name(
            split_colon(topic)[0],
            split_colon(topic)[1],
            split_colon(topic)[2],
            split_colon(topic)[3],
        ) == topic,
{
    let ab = exchange + seq![':'] + market_type;
    let abc = ab + seq![':'] + symbol;
    lemma_split_single(exchange);
    lemma_split_single(market_type);
    lemma_split_single(symbol);
    lemma_split_single(stream_type);
    lemma_split_append(exchange, market_type);
    lemma_split_append(ab, symbol);
    lemma_split_append(abc, stream_type);
    assert(seq![exchange] + seq![market_type] + seq![symbol] + seq![stream_type] =~= seq![
        exchange,
        market_type,
        symbol,
        stream_type,
    ]);
    let p = split_colon(topic);
    if p.len() == 4 {
        lemma_join_split(topic);
        let first_three = p.drop_last();
        let first_two = first_three.drop_last();
        let first_one = first_two.drop_last();
        assert(first_one =~= seq![p[0]]);
        assert(join_colon(first_one) == p[0]);
        assert(join_colon(first_two) == join_colon(first_one) + seq![':'] + p[1]);
        assert(join_colon(first_three) == join_colon(first_two) + seq![':'] + p[2]);
        assert(join_colon(p) == join_colon(first_three) + seq![':'] + p[3]);
    }
}

/// Splits `topic` at each `:`.
pub fn split_topic(topic: &str) -> (r: Vec<String>)
    ensures
        r@.len() == split_colon(topic@).len(),
        forall|j: int| 0 <= j < r@.len() ==> #[trigger] r@[j]@ == split_colon(topic@)[j],
{
    let n = topic.unicode_len();
    let mut parts: Vec<String> = Vec::new();
    let mut start: usize = 0;
    let mut i: usize = 0;
    while i < n
        invariant
            n == topic@.len(),
            start <= i <= n,
            split_colon(topic@.subrange(0, i as int)).len() == parts@.len() + 1,
            forall|j: int|
                0 <= j < parts@.len() ==> #[trigger] parts@[j]@ == split_colon(
                    topic@.subrange(0, i as int),
                )[j],
            split_colon(topic@.subrange(0, i as int)).last() == topic@.subrange(
                start as int,
                i as int,
            ),
        decreases n - i,
    {
        let c = topic.get_char(i);
        let ghost pre = topic@.subrange(0, i as int);
        let ghost next = topic@.subrange(0, i + 1);
        assert(next.drop_last() =~= pre);
        assert(next.last() == c);
        if c == ':' {
            let piece = String::from_str(topic.substring_char(start, i));
            parts.push(piece);
            start = i + 1;
            assert(topic@.subrange(start as int, i + 1) =~= Seq::<char>::empty());
        } else {
            assert(topic@.subrange(start as int, i + 1) =~= topic@.subrange(
                start as int,
                i as int,
            ).push(c));
        }
        i = i + 1;
    }
    let last = String::from_str(topic.substring_char(start, n));
    parts.push(last);
    assert(topic@.subrange(0, n as int) =~= topic@);
    parts
}

} // verus!
