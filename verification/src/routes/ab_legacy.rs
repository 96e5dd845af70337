use vstd::prelude::*;

use crate::models::address_book::{LegacyAbData, LegacyPeer, Tag};
use crate::models::peer::Peer;

verus! {

#[verifier::external_type_specification]
#[verifier::external_body]
#[verifier::reject_recursive_types(K)]
#[verifier::reject_recursive_types(V)]
pub struct ExJsonMap<K, V>(serde_json::Map<K, V>);

#[verifier::external_type_specification]
#[verifier::external_body]
pub struct ExJsonValue(serde_json::Value);

/// A JSON object, as `serde_json` holds one.
pub type JsonObject = serde_json::Map<String, serde_json::Value>;

/// The entries of a JSON object built by this module, each value an integer.
pub uninterp spec fn json_object_entries(object: JsonObject) -> Map<Seq<char>, i64>;

/// The compact text that `serde_json::to_string` gives of a JSON object with
/// these entries (keys in sorted order, as `serde_json::Map` keeps them).
pub uninterp spec fn json_object_text(entries: Map<Seq<char>, i64>) -> Seq<char>;

/// What `serde_json::from_str::<HashMap<String, i64>>` gives of `text`: the
/// entries of the JSON object it holds, or nothing when it is not a JSON object
/// of integers.
pub uninterp spec fn json_i64_object(text: Seq<char>) -> Option<Map<Seq<char>, i64>>;

/// `serde_json::Map::new`: an object without entries.
#[verifier::external_body]
fn json_object_new() -> (fresh: JsonObject)
    ensures
        json_object_entries(fresh).dom().is_empty(),
{
    serde_json::Map::new()
}

/// `serde_json::Map::insert` of an integer value: the key now maps to `value`,
/// replacing what it mapped to before.
#[verifier::external_body]
fn json_object_insert(
    object: &mut JsonObject,
    key: String,
    value: i64,
)
    ensures
        json_object_entries(*final(object)) == json_object_entries(*old(object)).insert(key@, value),
{
    object.insert(key, serde_json::Value::from(value));
}

/// `serde_json::to_string` of the object (its result, or an empty text if it
/// failed), named by `json_object_text` of the object's entries.
#[verifier::external_body]
fn json_object_to_text(object: &JsonObject) -> (text: String)
    ensures
        text@ == json_object_text(json_object_entries(*object)),
{
    serde_json::to_string(object).unwrap_or_default()
}

/// The entries of a list of key and value pairs; a later pair for the same key
/// replaces an earlier one.
pub open spec fn pairs_to_map(pairs: Seq<(String, i64)>) -> Map<Seq<char>, i64>
    decreases pairs.len(),
{
    if pairs.len() == 0 {
        Map::empty()
    } else {
        pairs_to_map(pairs.drop_last()).insert(pairs.last().0@, pairs.last().1)
    }
}

/// `serde_json::from_str::<HashMap<String, i64>>`, with the map's entries handed
/// out as pairs (in the map's own order, which is not stated).
#[verifier::external_body]
fn parse_json_i64_object(text: &str) -> (r: Option<Vec<(String, i64)>>)
    ensures
        r is Some <==> json_i64_object(text@) is Some,
        r matches Some(pairs) ==> pairs_to_map(pairs@) == json_i64_object(text@)->0,
{
    match serde_json::from_str::<std::collections::HashMap<String, i64>>(text) {
        Ok(m) => Some(m.into_iter().collect()),
        Err(_) => None,
    }
}

/// The tag colors of an address book as entries: each tag name maps to its color;
/// a later tag of the same name replaces an earlier one.
pub open spec fn tag_color_entries(tags: Seq<Tag>) -> Map<Seq<char>, i64>
    decreases tags.len(),
{
    if tags.len() == 0 {
        Map::empty()
    } else {
        tag_color_entries(tags.drop_last()).insert(tags.last().name@, tags.last().color)
    }
}

/// The tag colors of an address book as a JSON object text, mapping each tag name
/// to its color.
pub fn tag_colors_json(tags: &Vec<Tag>) -> (text: String)
    ensures
        text@ == json_object_text(tag_color_entries(tags@)),
{
    let mut object = json_object_new();
    let mut i: usize = 0;
    while i < tags.len()
        invariant
            i <= tags.len(),
            json_object_entries(object) == tag_color_entries(tags@.take(i as int)),
        decreases tags.len() - i,
    {
        assert(tags@.take(i + 1).drop_last() =~= tags@.take(i as int));
        json_object_insert(&mut object, tags[i].name.clone(), tags[i].color);
        i = i + 1;
    }
    assert(tags@.take(tags.len() as int) =~= tags@);
    json_object_to_text(&object)
}

/// A peer of the legacy payload: its RustDesk id and fields, with its tag names.
pub open spec fn legacy_peer_of(entry: (Peer, Vec<String>)) -> LegacyPeer {
    LegacyPeer {
        id: entry.0.rustdesk_id,
        hash: entry.0.hash,
        username: entry.0.username,
        hostname: entry.0.hostname,
        platform: entry.0.platform,
        alias: entry.0.alias,
        tags: entry.1,
    }
}

/// Whether `data` is the legacy payload of the given peers (each with its tag
/// names) and tags, with `tag_colors` as its tag colors text.
pub open spec fn is_legacy_payload(
    data: LegacyAbData,
    peers: Seq<(Peer, Vec<String>)>,
    tags: Seq<Tag>,
    tag_colors: Seq<char>,
) -> bool {
    &&& data.tags@.len() == tags.len()
    &&& forall|i: int| 0 <= i < tags.len() ==> #[trigger] data.tags@[i] == tags[i].name
    &&& data.peers@ == peers.map_values(|e: (Peer, Vec<String>)| legacy_peer_of(e))
    &&& data.tag_colors@ == tag_colors
}

/// Assembles the legacy address-book payload from the peers (each with its tag
/// names), the tags and the tag colors text.
pub fn legacy_ab_data(peers: Vec<(Peer, Vec<String>)>, tags: &Vec<Tag>, tag_colors: String) -> (data:
    LegacyAbData)
    ensures
        is_legacy_payload(data, peers@, tags@, tag_colors@),
{
    let mut names: Vec<String> = Vec::new();
    let mut i: usize = 0;
    while i < tags.len()
        invariant
            i <= tags.len(),
            names@.len() == i,
            forall|k: int| 0 <= k < i ==> #[trigger] names@[k] == tags@[k].name,
        decreases tags.len() - i,
    {
        names.push(tags[i].name.clone());
        i = i + 1;
    }
    let ghost all = peers@;
    let mut legacy: Vec<LegacyPeer> = Vec::new();
    for entry in it: peers
        invariant
            all == it.seq(),
            legacy@ =~= all.take(it.index() as int).map_values(
                |e: (Peer, Vec<String>)| legacy_peer_of(e),
            ),
    {
        let (peer, peer_tags) = entry;
        legacy.push(
            LegacyPeer {
                id: peer.rustdesk_id,
                hash: peer.hash,
                username: peer.username,
                hostname: peer.hostname,
                platform: peer.platform,
                alias: peer.alias,
                tags: peer_tags,
            },
        );
    }
    assert(all.take(all.len() as int) =~= all);
    LegacyAbData { tags: names, peers: legacy, tag_colors }
}

/// Builds the legacy address-book payload of a book from its peers (ordered by
/// RustDesk id, each with its tag names) and its tags (ordered by name).
pub fn build_legacy_ab(peers: Vec<(Peer, Vec<String>)>, tags: &Vec<Tag>) -> (data: LegacyAbData)
    ensures
        is_legacy_payload(data, peers@, tags@, json_object_text(tag_color_entries(tags@))),
{
    let colors = tag_colors_json(tags);
    legacy_ab_data(peers, tags, colors)
}

/// The color given to a tag that the tag colors do not mention (opaque black).
pub const DEFAULT_TAG_COLOR: i64 = 4278190080;

/// The color of tag `name` given the parsed tag colors, if they could be parsed.
pub open spec fn tag_color(name: Seq<char>, colors: Option<Map<Seq<char>, i64>>) -> i64 {
    match colors {
        Some(m) => if m.contains_key(name) {
            m[name]
        } else {
            DEFAULT_TAG_COLOR
        },
        None => DEFAULT_TAG_COLOR,
    }
}

/// The parsed tag colors as entries.
pub open spec fn color_entries(colors: Option<Vec<(String, i64)>>) -> Option<Map<Seq<char>, i64>> {
    match colors {
        Some(pairs) => Some(pairs_to_map(pairs@)),
        None => None,
    }
}

proof fn lemma_pairs_to_map_lookup(pairs: Seq<(String, i64)>, key: Seq<char>, k: int)
    requires
        -1 <= k < pairs.len(),
        forall|j: int| k < j < pairs.len() ==> (#[trigger] pairs[j]).0@ != key,
        k >= 0 ==> pairs[k].0@ == key,
    ensures
        k >= 0 ==> pairs_to_map(pairs).contains_key(key) && pairs_to_map(pairs)[key] == pairs[k].1,
        k < 0 ==> !pairs_to_map(pairs).contains_key(key),
    decreases pairs.len(),
{
    if pairs.len() > 0 {
        let rest = pairs.drop_last();
        if k == pairs.len() - 1 {
        } else {
            assert(pairs[pairs.len() - 1].0@ != key);
            assert forall|j: int| k < j < rest.len() implies (#[trigger] rest[j]).0@ != key by {
                assert(rest[j] == pairs[j]);
            }
            if k >= 0 {
                assert(rest[k] == pairs[k]);
            }
            lemma_pairs_to_map_lookup(rest, key, k);
        }
    }
}

/// Looks up the color of tag `name` in the parsed tag colors: the last pair for
/// that name, or the default color.
fn lookup_color(name: &String, colors: &Option<Vec<(String, i64)>>) -> (color: i64)
    ensures
        color == tag_color(name@, color_entries(*colors)),
{
    match colors {
        None => DEFAULT_TAG_COLOR,
        Some(pairs) => {
            let mut j: usize = pairs.len();
            while j > 0
                invariant
                    j <= pairs.len(),
                    color_entries(*colors) == Some(pairs_to_map(pairs@)),
                    forall|t: int| j <= t < pairs@.len() ==> (#[trigger] pairs@[t]).0@ != name@,
                decreases j,
            {
                j = j - 1;
                if pairs[j].0 == *name {
                    proof {
                        lemma_pairs_to_map_lookup(pairs@, name@, j as int);
                    }
                    return pairs[j].1;
                }
            }
            proof {
                lemma_pairs_to_map_lookup(pairs@, name@, -1);
            }
            DEFAULT_TAG_COLOR
        },
    }
}

/// The tags to store when a legacy client replaces its address book: each tag
/// name of the payload, in order, with its color from the parsed tag colors
/// (the default color when the name is not there or the colors could not be read).
pub fn legacy_tag_rows(names: &Vec<String>, colors: Option<Vec<(String, i64)>>) -> (rows: Vec<
    (String, i64),
>)
    ensures
        rows@.len() == names@.len(),
        forall|i: int|
            0 <= i < names@.len() ==> (#[trigger] rows@[i]).0 == names@[i] && rows@[i].1
                == tag_color(names@[i]@, color_entries(colors)),
{
    let mut rows: Vec<(String, i64)> = Vec::new();
    let mut i: usize = 0;
    while i < names.len()
        invariant
            i <= names.len(),
            rows@.len() == i,
            forall|k: int|
                0 <= k < i ==> (#[trigger] rows@[k]).0 == names@[k] && rows@[k].1 == tag_color(
                    names@[k]@,
                    color_entries(colors),
                ),
        decreases names.len() - i,
    {
        let color = lookup_color(&names[i], &colors);
        rows.push((names[i].clone(), color));
        i = i + 1;
    }
    rows
}

/// The tags to store when a legacy client replaces its address book, with the
/// tag colors given as the payload's JSON object text (unreadable colors count
/// as none).
pub fn legacy_tag_rows_from_json(names: &Vec<String>, tag_colors: &str) -> (rows: Vec<
    (String, i64),
>)
    ensures
        rows@.len() == names@.len(),
        forall|i: int|
            0 <= i < names@.len() ==> (#[trigger] rows@[i]).0 == names@[i] && rows@[i].1
                == tag_color(names@[i]@, json_i64_object(tag_colors@)),
{
    let colors = parse_json_i64_object(tag_colors);
    legacy_tag_rows(names, colors)
}

/// The tag colors read back after a legacy replacement give each stored tag the
/// color it was written with: whatever order the tags are read back in, when every
/// tag carries the color `legacy_tag_rows` gives its name, the tag colors object
/// maps exactly the stored tag names, each to that color.
pub proof fn law_tag_colors_read_back(tags: Seq<Tag>, colors: Option<Map<Seq<char>, i64>>)
    requires
        forall|i: int| 0 <= i < tags.len() ==> (#[trigger] tags[i]).color == tag_color(
            tags[i].name@,
            colors,
        ),
    ensures
        forall|name: Seq<char>|
            #[trigger] tag_color_entries(tags).contains_key(name) <==> exists|i: int|
                0 <= i < tags.len() && (#[trigger] tags[i]).name@ == name,
        forall|name: Seq<char>|
            #[trigger] tag_color_entries(tags).contains_key(name) ==> tag_color_entries(tags)[name]
                == tag_color(name, colors),
    decreases tags.len(),
{
    if tags.len() > 0 {
        let rest = tags.drop_last();
        assert forall|i: int| 0 <= i < rest.len() implies (#[trigger] rest[i]).color == tag_color(
            rest[i].name@,
            colors,
        ) by {
            assert(rest[i] == tags[i]);
        }
        law_tag_colors_read_back(rest, colors);
        let last = tags[tags.len() - 1];
        assert(tags.last() == last);
        assert forall|name: Seq<char>|
            #[trigger] tag_color_entries(tags).contains_key(name) implies exists|i: int|
                0 <= i < tags.len() && (#[trigger] tags[i]).name@ == name by {
            if name != last.name@ {
                assert(tag_color_entries(rest).contains_key(name));
                let i = choose|i: int| 0 <= i < rest.len() && (#[trigger] rest[i]).name@ == name;
                assert(tags[i] == rest[i]);
            } else {
                assert(tags[tags.len() - 1].name@ == name);
            }
        }
        assert forall|name: Seq<char>|
            (exists|i: int| 0 <= i < tags.len() && (#[trigger] tags[i]).name@ == name) implies #[trigger] tag_color_entries(
            tags,
        ).contains_key(name) by {
            let i = choose|i: int| 0 <= i < tags.len() && (#[trigger] tags[i]).name@ == name;
            if i < tags.len() - 1 {
                assert(rest[i] == tags[i]);
                assert(tag_color_entries(rest).contains_key(name));
            }
        }
        assert(last.color == tag_color(last.name@, colors));
        assert forall|name: Seq<char>|
            #[trigger] tag_color_entries(tags).contains_key(name) implies tag_color_entries(tags)[name]
                == tag_color(name, colors) by {
            if name != last.name@ {
                assert(tag_color_entries(rest).contains_key(name));
            }
        }
    }
}

/// Whether a stored peer, with the names of its linked tags, holds what a legacy
/// peer of a replacement payload says.
pub open spec fn stores_legacy_peer(stored: (Peer, Vec<String>), peer: LegacyPeer) -> bool {
    &&& stored.0.rustdesk_id == peer.id
    &&& stored.0.hash == peer.hash
    &&& stored.0.username == peer.username
    &&& stored.0.hostname == peer.hostname
    &&& stored.0.platform == peer.platform
    &&& stored.0.alias == peer.alias
    &&& stored.1 == peer.tags
}

/// A legacy replacement reads back as written: when the stored peers and tags
/// are those the payload `written` describes (read in the order they were
/// written, each tag with the color `legacy_tag_rows` gave it), the payload built
/// from them has the written tags and peers, and its tag colors give each written
/// tag name, and only those, its color.
pub proof fn law_legacy_replace_reads_back(
    written: LegacyAbData,
    colors: Option<Map<Seq<char>, i64>>,
    peers: Seq<(Peer, Vec<String>)>,
    tags: Seq<Tag>,
    read: LegacyAbData,
)
    requires
        peers.len() == written.peers@.len(),
        forall|i: int| 0 <= i < peers.len() ==> stores_legacy_peer(#[trigger] peers[i], written.peers@[i]),
        tags.len() == written.tags@.len(),
        forall|i: int|
            0 <= i < tags.len() ==> (#[trigger] tags[i]).name == written.tags@[i] && tags[i].color
                == tag_color(written.tags@[i]@, colors),
        is_legacy_payload(read, peers, tags, json_object_text(tag_color_entries(tags))),
    ensures
        read.tags@ == written.tags@,
        read.peers@ == written.peers@,
        read.tag_colors@ == json_object_text(tag_color_entries(tags)),
        forall|name: Seq<char>|
            #[trigger] tag_color_entries(tags).contains_key(name) <==> exists|i: int|
                0 <= i < written.tags@.len() && (#[trigger] written.tags@[i])@ == name,
        forall|name: Seq<char>|
            #[trigger] tag_color_entries(tags).contains_key(name) ==> tag_color_entries(tags)[name]
                == tag_color(name, colors),
{
    assert(read.tags@ =~= written.tags@);
    assert forall|i: int| 0 <= i < peers.len() implies #[trigger] read.peers@[i] == written.peers@[i] by {
        assert(stores_legacy_peer(peers[i], written.peers@[i]));
        let lp = written.peers@[i];
        assert(legacy_peer_of(peers[i]) == lp);
    }
    assert(read.peers@ =~= written.peers@);
    law_tag_colors_read_back(tags, colors);
    assert forall|name: Seq<char>|
        #[trigger] tag_color_entries(tags).contains_key(name) <==> exists|i: int|
            0 <= i < written.tags@.len() && (#[trigger] written.tags@[i])@ == name by {
        if tag_color_entries(tags).contains_key(name) {
            let i = choose|i: int| 0 <= i < tags.len() && (#[trigger] tags[i]).name@ == name;
            assert(written.tags@[i] == tags[i].name);
        }
        if exists|i: int| 0 <= i < written.tags@.len() && (#[trigger] written.tags@[i])@ == name {
            let i = choose|i: int| 0 <= i < written.tags@.len() && (#[trigger] written.tags@[i])@ == name;
            assert(tags[i].name@ == name);
        }
    }
}

} // verus!
