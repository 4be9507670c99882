//! The settings handed to the message broker that feeds the indexer.

use vstd::prelude::*;

verus! {

/// What the indexer needs to consume its topic.
pub struct KafkaSettings {
    /// The consumer group to join.
    pub group_id: String,
    /// The topic to consume.
    pub topic: String,
    /// The client options, as key and value; no key occurs twice.
    pub options: Vec<(String, String)>,
}

/// The broker settings for a consumer in group `group_id` of topic `topic`,
/// connecting to `brokers` as client `client_id`: the options name the
/// brokers under `bootstrap.servers` and the client under `client.id`.
pub fn get_kafka_settings(group_id: &str, topic: &str, brokers: &str, client_id: &str) -> (r:
    KafkaSettings)
    ensures
        r.group_id@ == group_id@,
        r.topic@ == topic@,
        r.options@.len() == 2,
        r.options@[0].0@ == "bootstrap.servers"@,
        r.options@[0].1@ == brokers@,
        r.options@[1].0@ == "client.id"@,
        r.options@[1].1@ == client_id@,
        r.options@[0].0@ != r.options@[1].0@,
{
    proof {
        reveal_strlit("bootstrap.servers");
        reveal_strlit("client.id");
        assert("bootstrap.servers"@[0] != "client.id"@[0]);
    }
    let mut options: Vec<(String, String)> = Vec::new();
    options.push((String::from_str("bootstrap.servers"), String::from_str(brokers)));
    options.push((String::from_str("client.id"), String::from_str(client_id)));
    KafkaSettings {
        group_id: String::from_str(group_id),
        topic: String::from_str(topic),
        options,
    }
}

/// The parts joined with a `,` between each two.
pub open spec fn join_with_commas(parts: Seq<Seq<char>>) -> Seq<char>
    decreases parts.len(),
{
    if parts.len() == 0 {
        Seq::<char>::empty()
    } else if parts.len() == 1 {
        parts[0]
    } else {
        join_with_commas(parts.drop_last()) + seq![','] + parts.last()
    }
}

/// One part joins to itself, and two parts join with one `,` between them.
pub proof fn lemma_join_small(a: Seq<char>, b: Seq<char>)
    ensures
        join_with_commas(seq![a]) == a,
        join_with_commas(seq![a, b]) == a + seq![','] + b,
{
    assert(join_with_commas(seq![a]) == a);
    assert(seq![a, b].drop_last() =~= seq![a]);
    assert(seq![a, b].last() == b);
    assert(join_with_commas(seq![a, b]) == join_with_commas(seq![a]) + seq![','] + b);
}

/// Joining one more part appends a `,` and the part: the joined text grows
/// by the part's length and one.
pub proof fn lemma_join_push(parts: Seq<Seq<char>>, last: Seq<char>)
    requires
        parts.len() >= 1,
    ensures
        join_with_commas(parts.push(last)) == join_with_commas(parts) + seq![','] + last,
        join_with_commas(parts.push(last)).len() == join_with_commas(parts).len() + 1 + last.len(),
{
    assert(parts.push(last).drop_last() =~= parts);
}

/// Extending the last part extends the joined text.
proof fn lemma_join_extend_last(parts: Seq<Seq<char>>, last: Seq<char>, c: char)
    ensures
        join_with_commas(parts.push(last.push(c))) == join_with_commas(parts.push(last)).push(c),
{
    assert(parts.push(last.push(c)).drop_last() =~= parts);
    assert(parts.push(last).drop_last() =~= parts);
    if parts.len() == 0 {
        assert(parts.push(last.push(c)) =~= seq![last.push(c)]);
        assert(parts.push(last) =~= seq![last]);
    } else {
        assert(join_with_commas(parts.push(last.push(c))) =~= join_with_commas(parts.push(last)).push(
            c,
        ));
    }
}

/// Splits the configured list of state endpoints, which is taken to be
/// separated by `,` (no other separator is recognised and no space is
/// trimmed): the parts, joined again with `,`, give back the list, and none
/// holds a `,`. An empty list gives one empty part, as `str::split` does.
pub fn from_string_to_vec(endpoints: &str) -> (r: Vec<String>)
    ensures
        r@.len() >= 1,
        join_with_commas(r@.map_values(|p: String| p@)) == endpoints@,
        forall|i: int| 0 <= i < r@.len() ==> !(#[trigger] r@[i]@).contains(','),
{
    let len = endpoints.unicode_len();
    let mut pieces: Vec<String> = Vec::new();
    let mut cur = String::new();
    let ghost mut parts: Seq<Seq<char>> = Seq::empty();
    let mut i: usize = 0;
    while i < len
        invariant
            i <= len,
            len == endpoints@.len(),
            parts.len() == pieces@.len(),
            forall|j: int| 0 <= j < parts.len() ==> #[trigger] parts[j] == pieces@[j]@,
            forall|j: int| 0 <= j < parts.len() ==> !(#[trigger] parts[j]).contains(','),
            !cur@.contains(','),
            join_with_commas(parts.push(cur@)) == endpoints@.take(i as int),
        decreases len - i,
    {
        let c = endpoints.get_char(i);
        assert(endpoints@.take(i + 1) =~= endpoints@.take(i as int).push(c));
        if c == ',' {
            let ghost old_all = parts.push(cur@);
            proof {
                parts = parts.push(cur@);
                assert(parts.push(Seq::<char>::empty()).drop_last() =~= old_all);
                assert(join_with_commas(parts.push(Seq::<char>::empty())) =~= endpoints@.take(
                    i + 1,
                ));
            }
            pieces.push(cur);
            cur = String::new();
        } else {
            let ghost old_cur = cur@;
            cur.append(endpoints.substring_char(i, i + 1));
            proof {
                assert(cur@ =~= old_cur.push(c));
                lemma_join_extend_last(parts, old_cur, c);
                assert(!cur@.contains(',')) by {
                    if cur@.contains(',') {
                        let k = choose|k: int| 0 <= k < cur@.len() && cur@[k] == ',';
                        assert(old_cur[k] == ',');
                    }
                }
            }
        }
        i += 1;
    }
    let ghost all = parts.push(cur@);
    pieces.push(cur);
    assert(pieces@.map_values(|p: String| p@) =~= all);
    assert forall|j: int| 0 <= j < pieces@.len() implies !(#[trigger] pieces@[j]@).contains(',') by {
        if j < parts.len() {
            assert(parts[j] == pieces@[j]@);
        }
    }
    assert(endpoints@.take(len as int) =~= endpoints@);
    pieces
}

} // verus!
