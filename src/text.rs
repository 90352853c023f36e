//! Topic templates and payload text.
use vstd::prelude::*;

verus! {

/// `s` with every occurrence of `pat` replaced by `rep`, scanning left to
/// right without overlap.
pub open spec fn replace_all(s: Seq<char>, pat: Seq<char>, rep: Seq<char>) -> Seq<char>
    decreases s.len(),
{
    if pat.len() == 0 || s.len() < pat.len() {
        s
    } else if s.subrange(0, pat.len() as int) == pat {
        rep + replace_all(s.subrange(pat.len() as int, s.len() as int), pat, rep)
    } else {
        seq![s[0]] + replace_all(s.subrange(1, s.len() as int), pat, rep)
    }
}

/// `s` repeated `n` times.
pub open spec fn repeat_seq(s: Seq<char>, n: nat) -> Seq<char>
    decreases n,
{
    if n == 0 {
        Seq::empty()
    } else {
        s + repeat_seq(s, (n - 1) as nat)
    }
}

/// Relies on `str::replace`: replaces all matches of a non-empty pattern,
/// left to right.
#[verifier::external_body]
fn str_replace(s: &str, pat: &str, rep: &str) -> (r: String)
    requires
        pat@.len() > 0,
    ensures
        r@ == replace_all(s@, pat@, rep@),
{
    s.replace(pat, rep)
}

/// Relies on `str::repeat`: the string repeated `n` times. It panics only
/// when the length in bytes overflows; an ASCII string has one byte per char.
#[verifier::external_body]
fn str_repeat(s: &str, n: usize) -> (r: String)
    requires
        forall|i: int| 0 <= i < s@.len() ==> (s@[i] as u32) < 128,
        s@.len() * n <= isize::MAX,
    ensures
        r@ == repeat_seq(s@, n as nat),
{
    s.repeat(n)
}

/// A payload of `size` NUL characters.
pub fn zeroed_payload(size: usize) -> (r: String)
    requires
        size <= isize::MAX,
    ensures
        r@ == Seq::new(size as nat, |i: int| '\0'),
{
    let nul = "\0";
    proof {
        reveal_strlit("\0");
        assert(nul@.len() == 1);
        assert((nul@[0] as u32) < 128);
    }
    let r = str_repeat(nul, size);
    proof {
        lemma_repeat_single(nul@, size as nat);
    }
    r
}

proof fn lemma_repeat_single(s: Seq<char>, n: nat)
    requires
        s.len() == 1,
    ensures
        repeat_seq(s, n) == Seq::new(n, |i: int| s[0]),
    decreases n,
{
    if n > 0 {
        lemma_repeat_single(s, (n - 1) as nat);
        assert(repeat_seq(s, n) =~= Seq::new(n, |i: int| s[0]));
    } else {
        assert(repeat_seq(s, n) =~= Seq::new(n, |i: int| s[0]));
    }
}


/// The topic a publisher sends to: `{pub_id}` becomes the publisher's id and
/// `{unique_id}` the run's unique id.
pub fn publisher_topic(template: &str, pub_id: &str, unique_id: &str) -> (r: String)
    ensures
        r@ == replace_all(replace_all(template@, "{pub_id}"@, pub_id@), "{unique_id}"@, unique_id@),
{
    proof {
        reveal_strlit("{pub_id}");
        reveal_strlit("{unique_id}");
    }
    let t = str_replace(template, "{pub_id}", pub_id);
    str_replace(t.as_str(), "{unique_id}", unique_id)
}

/// The topic for one item kind: `{data_type}` becomes the kind's name.
pub fn data_topic(topic: &str, kind_name: &str) -> (r: String)
    ensures
        r@ == replace_all(topic@, "{data_type}"@, kind_name@),
{
    proof {
        reveal_strlit("{data_type}");
    }
    str_replace(topic, "{data_type}", kind_name)
}

/// The filter a subscriber subscribes to: every publisher (`{pub_id}`) and
/// every item kind (`{data_type}`) of this run (`{unique_id}`).
pub fn subscriber_filter(template: &str, unique_id: &str) -> (r: String)
    ensures
        r@ == replace_all(
            replace_all(replace_all(template@, "{pub_id}"@, "+"@), "{unique_id}"@, unique_id@),
            "{data_type}"@,
            "+"@,
        ),
{
    proof {
        reveal_strlit("{pub_id}");
        reveal_strlit("{unique_id}");
        reveal_strlit("{data_type}");
    }
    let t = str_replace(template, "{pub_id}", "+");
    let t = str_replace(t.as_str(), "{unique_id}", unique_id);
    str_replace(t.as_str(), "{data_type}", "+")
}


/// The decimal digit for `d < 10`.
pub open spec fn digit_char(d: nat) -> char {
    seq!['0', '1', '2', '3', '4', '5', '6', '7', '8', '9'][d as int]
}

/// The decimal representation of `n`, without leading zeros.
pub open spec fn decimal(n: nat) -> Seq<char>
    decreases n,
{
    if n < 10 {
        seq![digit_char(n)]
    } else {
        decimal(n / 10).push(digit_char(n % 10))
    }
}

/// `n` in decimal, padded with leading zeros to at least `width` digits.
pub open spec fn padded_decimal(n: nat, width: nat) -> Seq<char> {
    let d = decimal(n);
    if d.len() < width { Seq::new((width - d.len()) as nat, |i: int| '0') + d } else { d }
}

/// Relies on `format!` with `{:0width$}`: `n` in decimal, zero-padded to at
/// least `width` digits. A runtime width above `u16::MAX` panics.
#[verifier::external_body]
fn format_padded(n: usize, width: usize) -> (r: String)
    requires
        width <= u16::MAX,
    ensures
        r@ == padded_decimal(n as nat, width as nat),
{
    format!("{n:0width$}")
}

/// The client id of duplex connection `id`: `rumqtt-00042`, or
/// `rumqtt-sink-42` for a sink.
pub fn connection_client_id(id: usize, sink: bool) -> (r: String)
    ensures
        r@ == (if sink {
            "rumqtt-sink-"@ + decimal(id as nat)
        } else {
            "rumqtt-"@ + padded_decimal(id as nat, 5)
        }),
{
    if sink {
        let mut r = String::from_str("rumqtt-sink-");
        let n = format_padded(id, 0);
        proof {
            assert(padded_decimal(id as nat, 0) == decimal(id as nat));
        }
        r.append(n.as_str());
        r
    } else {
        let mut r = String::from_str("rumqtt-");
        let n = format_padded(id, 5);
        r.append(n.as_str());
        r
    }
}

/// The topic that duplex connections publish to from connection `i` and
/// subscribe to: `hello/rumqtt-0000i/0/world`.
pub open spec fn connection_topic_spec(i: nat) -> Seq<char> {
    "hello/rumqtt-"@ + padded_decimal(i, 5) + "/0/world"@
}

/// The subscriptions of a duplex connection: a sink subscribes to its one
/// topic; any other connection to the topic of each of the `subscribers`
/// connections.
pub fn connection_subscriptions(subscribers: usize, sink_topic: Option<&str>) -> (r: Vec<String>)
    ensures
        match sink_topic {
            Some(t) => r@.len() == 1 && r@[0]@ == t@,
            None => {
                &&& r@.len() == subscribers
                &&& forall|i: int| 0 <= i < subscribers ==> (#[trigger] r@[i])@ == connection_topic_spec(i as nat)
            },
        },
{
    let mut r: Vec<String> = Vec::new();
    match sink_topic {
        Some(t) => {
            r.push(String::from_str(t));
        },
        None => {
            let mut i: usize = 0;
            while i < subscribers
                invariant
                    i <= subscribers,
                    r@.len() == i,
                    forall|j: int| 0 <= j < i ==> (#[trigger] r@[j])@ == connection_topic_spec(j as nat),
                decreases subscribers - i,
            {
                let mut topic = String::from_str("hello/rumqtt-");
                let n = format_padded(i, 5);
                topic.append(n.as_str());
                topic.append("/0/world");
                r.push(topic);
                i = i + 1;
            }
        },
    }
    r
}

/// The topics a duplex connection publishes to: `hello/<id>/<i>/world` for
/// each of its `publishers` publish loops.
pub fn connection_publish_topics(id: &str, publishers: usize) -> (r: Vec<String>)
    ensures
        r@.len() == publishers,
        forall|i: int| 0 <= i < publishers ==> (#[trigger] r@[i])@ == "hello/"@ + id@ + "/"@ + decimal(i as nat) + "/world"@,
{
    let mut r: Vec<String> = Vec::new();
    let mut i: usize = 0;
    while i < publishers
        invariant
            i <= publishers,
            r@.len() == i,
            forall|j: int| 0 <= j < i ==> (#[trigger] r@[j])@ == "hello/"@ + id@ + "/"@ + decimal(j as nat) + "/world"@,
        decreases publishers - i,
    {
        let mut topic = String::from_str("hello/");
        topic.append(id);
        topic.append("/");
        let n = format_padded(i, 0);
        proof {
            assert(padded_decimal(i as nat, 0) == decimal(i as nat));
        }
        topic.append(n.as_str());
        topic.append("/world");
        r.push(topic);
        i = i + 1;
    }
    r
}

} // verus!
