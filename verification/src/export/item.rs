//! Items: the messages of a channel that follow the documented item format.
//!
//! The format is `**<Title>** (_<tag>_ (_<tag>_ ...)) <Description>`: a message is an item when
//! it begins with a `**bold**` title and holds non-whitespace text after the title. Any number
//! of `_italic_` tags may follow the title, separated by whitespace; the rest of the message,
//! trimmed, is the description.
use vstd::prelude::*;

use crate::ids::{ChannelId, MessageId, UserId};
use crate::export::vote::ReactionType;

use crate::text::{
    chars_of, find_char, find_pair, find_char_exec, find_pair_exec, is_whitespace_spec, lemma_find_char,
    lemma_find_pair, lemma_skip_ws, lemma_skip_ws_within_run, lemma_trim_end, skip_ws, skip_ws_exec,
    string_from_range, trim_end_exec, trim_end_from,
};

verus! {

/// The input could not be parsed as an item.
#[derive(Debug, Clone, Copy, PartialEq, Eq, Structural)]
pub struct ParseError;

/// An item as posted in a channel: a title, some tags and a description.
pub struct Item {
    pub title: String,
    pub tags: Vec<String>,
    pub description: String,
}

/// The mathematical content of an [`Item`].
pub struct ItemView {
    pub title: Seq<char>,
    pub tags: Seq<Seq<char>>,
    pub description: Seq<char>,
}

impl View for Item {
    type V = ItemView;

    open spec fn view(&self) -> ItemView {
        ItemView {
            title: self.title@,
            tags: self.tags@.map_values(|t: String| t@),
            description: self.description@,
        }
    }
}

/// The tags starting at position `i` of `s` (each `_tag_` possibly preceded by whitespace),
/// and the position of the first non-whitespace character after them. A `_` that is never
/// closed starts no tag: it and what follows it are the description.
pub open spec fn parse_tags(s: Seq<char>, i: int) -> Option<(Seq<Seq<char>>, int)>
    decreases s.len() - i,
{
    let j = skip_ws(s, i);
    if 0 <= i <= s.len() && j < s.len() && s[j] == '_' {
        match find_char(s, j + 1, '_') {
            None => Some((Seq::empty(), j)),
            Some(k) => {
                proof {
                    lemma_skip_ws(s, i);
                    lemma_find_char(s, j + 1, '_');
                }
                match parse_tags(s, k + 1) {
                    None => None,
                    Some(rest) => Some((seq![s.subrange(j + 1, k)] + rest.0, rest.1)),
                }
            },
        }
    } else {
        Some((Seq::empty(), j))
    }
}

/// What the message `s` means as an item, if it is one.
///
/// After leading whitespace, `s` must start with `**`; the title runs up to the next `**`.
/// Tags follow as described by [`parse_tags`]; the description is the rest with surrounding
/// whitespace removed. A message with nothing but whitespace after the title is no item.
pub open spec fn parse_item(s: Seq<char>) -> Option<ItemView> {
    let p = skip_ws(s, 0);
    if p + 1 < s.len() && s[p] == '*' && s[p + 1] == '*' {
        match find_pair(s, p + 2, '*') {
            None => None,
            Some(e) => match parse_tags(s, e + 2) {
                None => None,
                Some(r) => if r.0.len() == 0 && r.1 >= s.len() {
                    None
                } else {
                    Some(
                        ItemView {
                            title: s.subrange(p + 2, e),
                            tags: r.0,
                            description: s.subrange(r.1, trim_end_from(s, r.1, s.len() as int)),
                        },
                    )
                },
            },
        }
    } else {
        None
    }
}

/// The text of `tags` as written after a title: each tag as ` _tag_`.
pub open spec fn render_tags(tags: Seq<Seq<char>>) -> Seq<char>
    decreases tags.len(),
{
    if tags.len() == 0 {
        Seq::empty()
    } else {
        seq![' ', '_'] + tags[0] + seq!['_'] + render_tags(tags.drop_first())
    }
}

/// An item written in the documented format: `**title** _tag_ ... description`.
pub open spec fn render_item(v: ItemView) -> Seq<char> {
    seq!['*', '*'] + v.title + seq!['*', '*'] + render_tags(v.tags) + seq![' '] + v.description
}

/// Whether `v` can be written in the item format and read back: the title holds no `**` and
/// does not end in `*`, no tag holds `_`, the description is trimmed and does not start with
/// `_`, and an item without tags has a description.
pub open spec fn writable(v: ItemView) -> bool {
    &&& forall|m: int|
        0 <= m && m + 1 < v.title.len() ==> !(#[trigger] v.title[m] == '*' && v.title[m + 1]
            == '*')
    &&& v.title.len() > 0 ==> v.title.last() != '*'
    &&& forall|t: int, m: int|
        0 <= t < v.tags.len() && 0 <= m < v.tags[t].len() ==> #[trigger] v.tags[t][m] != '_'
    &&& v.description.len() > 0 ==> {
        &&& !is_whitespace_spec(v.description[0])
        &&& v.description[0] != '_'
        &&& !is_whitespace_spec(v.description.last())
    }
    &&& v.tags.len() == 0 ==> v.description.len() > 0
}

proof fn lemma_parse_rendered_tags(s: Seq<char>, start: int, tags: Seq<Seq<char>>, d: Seq<char>)
    requires
        0 <= start <= s.len(),
        s.subrange(start, s.len() as int) == render_tags(tags) + seq![' '] + d,
        forall|t: int, m: int|
            0 <= t < tags.len() && 0 <= m < tags[t].len() ==> #[trigger] tags[t][m] != '_',
        d.len() > 0 ==> !is_whitespace_spec(d[0]) && d[0] != '_',
    ensures
        parse_tags(s, start) == Some((tags, s.len() - d.len())),
    decreases tags.len(),
{
    let sub = s.subrange(start, s.len() as int);
    assert(sub.len() == s.len() - start);
    assert((render_tags(tags) + seq![' '] + d).len() >= 1);
    assert(sub[0] == ' ');
    assert(s[start] == sub[0]);
    assert(is_whitespace_spec(s[start]));
    if tags.len() == 0 {
        assert(render_tags(tags) + seq![' '] + d =~= seq![' '] + d);
        if d.len() > 0 {
            assert(s[start + 1] == sub[1]);
            assert(skip_ws(s, start + 1) == start + 1);
        } else {
            assert(skip_ws(s, start + 1) == start + 1);
        }
        assert(skip_ws(s, start) == start + 1);
    } else {
        let t0 = tags[0];
        let rest = tags.drop_first();
        let tail = render_tags(rest) + seq![' '] + d;
        assert(render_tags(tags) + seq![' '] + d =~= seq![' ', '_'] + t0 + seq!['_'] + tail);
        assert(s[start + 1] == sub[1]);
        assert(s[start + 1] == '_');
        assert(skip_ws(s, start + 1) == start + 1);
        assert(skip_ws(s, start) == start + 1);
        let p = start + 2 + t0.len();
        assert(s[p] == sub[2 + t0.len() as int]);
        assert(s[p] == '_');
        assert forall|m: int| start + 2 <= m < p implies #[trigger] s[m] != '_' by {
            assert(s[m] == sub[m - start]);
            assert(sub[m - start] == t0[m - start - 2]);
            assert(tags[0][m - start - 2] != '_');
        }
        lemma_find_char(s, start + 2, '_');
        assert(find_char(s, start + 2, '_') == Some(p));
        assert(s.subrange(p + 1, s.len() as int) =~= tail) by {
            assert forall|m: int| 0 <= m < tail.len() implies #[trigger] s.subrange(
                p + 1,
                s.len() as int,
            )[m] == tail[m] by {
                assert(s[p + 1 + m] == sub[p + 1 + m - start]);
            }
        }
        assert forall|t: int, m: int|
            0 <= t < rest.len() && 0 <= m < rest[t].len() implies #[trigger] rest[t][m] != '_' by {
            assert(rest[t] == tags[t + 1]);
        }
        lemma_parse_rendered_tags(s, p + 1, rest, d);
        assert(s.subrange(start + 2, p) =~= t0) by {
            assert forall|m: int| 0 <= m < t0.len() implies #[trigger] s.subrange(start + 2, p)[m]
                == t0[m] by {
                assert(s[start + 2 + m] == sub[2 + m]);
            }
        }
        assert(seq![t0] + rest =~= tags);
    }
}

/// Law: an item written in the documented format is read back as the same item.
pub proof fn lemma_rendered_item_parses(v: ItemView)
    requires
        writable(v),
    ensures
        parse_item(render_item(v)) == Some(v),
{
    let s = render_item(v);
    let tl = v.title.len() as int;
    let d = v.description;
    let tail = render_tags(v.tags) + seq![' '] + d;
    assert(s =~= seq!['*', '*'] + v.title + seq!['*', '*'] + tail);
    assert(s[0] == '*' && s[1] == '*');
    assert(skip_ws(s, 0) == 0);
    assert(s[2 + tl] == '*' && s[3 + tl] == '*');
    assert forall|m: int| 2 <= m < 2 + tl implies !(#[trigger] s[m] == '*' && s[m + 1] == '*') by {
        assert(s[m] == v.title[m - 2]);
        if m + 1 < 2 + tl {
            assert(s[m + 1] == v.title[m - 1]);
        }
    }
    lemma_find_pair(s, 2, '*');
    assert(find_pair(s, 2, '*') == Some(2 + tl));
    assert(s.subrange(4 + tl, s.len() as int) =~= tail);
    lemma_parse_rendered_tags(s, 4 + tl, v.tags, d);
    let q = s.len() - d.len();
    assert(s.subrange(q, s.len() as int) =~= d);
    if d.len() > 0 {
        assert(s[s.len() - 1] == d.last());
    }
    assert(trim_end_from(s, q, s.len() as int) == s.len());
    assert(s.subrange(2, 2 + tl) =~= v.title);
}

proof fn lemma_parse_tags_total(s: Seq<char>, i: int)
    requires
        0 <= i <= s.len(),
    ensures
        parse_tags(s, i) matches Some(r) && (r.0.len() == 0 ==> r.1 == skip_ws(s, i)),
    decreases s.len() - i,
{
    lemma_skip_ws(s, i);
    let j = skip_ws(s, i);
    if j < s.len() && s[j] == '_' {
        lemma_find_char(s, j + 1, '_');
        if let Some(k) = find_char(s, j + 1, '_') {
            lemma_parse_tags_total(s, k + 1);
        }
    }
}

/// Law: a message that begins (after whitespace) with a `**bold**` title and holds
/// non-whitespace text after the title is an item.
pub proof fn lemma_bold_title_with_text_is_item(s: Seq<char>, p: int, e: int, t: int)
    requires
        p == skip_ws(s, 0),
        p + 1 < s.len(),
        s[p] == '*' && s[p + 1] == '*',
        find_pair(s, p + 2, '*') == Some(e),
        e + 2 <= t < s.len(),
        !is_whitespace_spec(s[t]),
    ensures
        parse_item(s) is Some,
{
    lemma_find_pair(s, p + 2, '*');
    lemma_parse_tags_total(s, e + 2);
    lemma_skip_ws(s, e + 2);
    let r = parse_tags(s, e + 2).unwrap();
    if r.0.len() == 0 {
        assert(skip_ws(s, e + 2) <= t) by {
            if skip_ws(s, e + 2) > t {
                assert(is_whitespace_spec(s[t]));
            }
        }
    }
}

/// Law: the amount of whitespace before a tag does not matter: reading tags from anywhere in a
/// run of whitespace gives the same tags and the same end.
pub proof fn lemma_tags_ignore_leading_whitespace(s: Seq<char>, i: int, k: int)
    requires
        0 <= i <= k <= s.len(),
        forall|m: int| i <= m < k ==> is_whitespace_spec(#[trigger] s[m]),
    ensures
        parse_tags(s, i) == parse_tags(s, k),
{
    lemma_skip_ws_within_run(s, i, k);
}

/// Law: a description never loses its last character to trimming unless that character is
/// whitespace: when the message ends in a character that is not whitespace (such as `.`), a
/// non-empty description ends in it too.
pub proof fn lemma_description_keeps_final_character(s: Seq<char>)
    requires
        s.len() > 0,
        !is_whitespace_spec(s.last()),
        parse_item(s) matches Some(v) && v.description.len() > 0,
    ensures
        parse_item(s).unwrap().description.last() == s.last(),
{
    let p = skip_ws(s, 0);
    let e = find_pair(s, p + 2, '*').unwrap();
    lemma_find_pair(s, p + 2, '*');
    let r = parse_tags(s, e + 2).unwrap();
    let n = s.len() as int;
    lemma_parse_tags_total(s, e + 2);
    lemma_parse_tags_bounds(s, e + 2);
    assert(trim_end_from(s, r.1, n) == n);
    assert(parse_item(s).unwrap().description == s.subrange(r.1, n));
}

/// Where the tags starting at `i` end lies within `s`.
proof fn lemma_parse_tags_bounds(s: Seq<char>, i: int)
    requires
        0 <= i <= s.len(),
    ensures
        parse_tags(s, i) matches Some(r) ==> i <= r.1 <= s.len(),
    decreases s.len() - i,
{
    lemma_skip_ws(s, i);
    let j = skip_ws(s, i);
    if j < s.len() && s[j] == '_' {
        lemma_find_char(s, j + 1, '_');
        if let Some(k) = find_char(s, j + 1, '_') {
            lemma_parse_tags_bounds(s, k + 1);
        }
    }
}

impl Item {
    /// Parses a message into an item, following [`parse_item`].
    #[verifier::loop_isolation(false)]
    pub fn parse(input: &str) -> (res: Result<Item, ParseError>)
        ensures
            match parse_item(input@) {
                Some(v) => res matches Ok(item) && item@ == v,
                None => res is Err,
            },
    {
        let chars = chars_of(input);
        let ghost s = chars@;
        let n = chars.len();
        let p = skip_ws_exec(&chars, 0);
        proof {
            lemma_skip_ws(s, 0);
        }
        if !(p < n && p + 1 < n && chars[p] == '*' && chars[p + 1] == '*') {
            return Err(ParseError);
        }
        let e = match find_pair_exec(&chars, p + 2, '*') {
            None => return Err(ParseError),
            Some(e) => e,
        };
        proof {
            lemma_find_pair(s, p + 2, '*');
        }
        let title = string_from_range(&chars, p + 2, e);
        let mut tags: Vec<String> = Vec::new();
        let mut i = e + 2;
        let mut j = skip_ws_exec(&chars, i);
        proof {
            lemma_skip_ws(s, i as int);
        }
        let mut unclosed = false;
        while !unclosed && j < n && chars[j] == '_'
            invariant
                e + 2 <= i <= j <= n,
                n == s.len(),
                s == chars@,
                j == skip_ws(s, i as int),
                parse_tags(s, (e + 2) as int) == match parse_tags(s, i as int) {
                    None => None,
                    Some(r) => Some((tags@.map_values(|t: String| t@) + r.0, r.1)),
                },
                unclosed ==> parse_tags(s, i as int) == Some((Seq::<Seq<char>>::empty(), j as int)),
            decreases n - i + (if unclosed { 0int } else { 1int }),
        {
            match find_char_exec(&chars, j + 1, '_') {
                None => {
                    unclosed = true;
                },
                Some(k) => {
                    proof {
                        lemma_find_char(s, (j + 1) as int, '_');
                    }
                    let tag = string_from_range(&chars, j + 1, k);
                    let ghost before = tags@.map_values(|t: String| t@);
                    tags.push(tag);
                    proof {
                        assert(tags@.map_values(|t: String| t@) =~= before.push(s.subrange(
                            (j + 1) as int,
                            k as int,
                        )));
                        match parse_tags(s, (k + 1) as int) {
                            None => {},
                            Some(r) => {
                                assert(before + (seq![s.subrange((j + 1) as int, k as int)] + r.0)
                                    =~= tags@.map_values(|t: String| t@) + r.0);
                            },
                        }
                    }
                    i = k + 1;
                    j = skip_ws_exec(&chars, i);
                    proof {
                        lemma_skip_ws(s, i as int);
                    }
                },
            }
        }
        let q = j;
        proof {
            assert(parse_tags(s, i as int) == Some((Seq::<Seq<char>>::empty(), q as int)));
            assert(tags@.map_values(|t: String| t@) + Seq::<Seq<char>>::empty() =~= tags@.map_values(
                |t: String| t@,
            ));
            lemma_trim_end(s, q as int, n as int);
        }
        if tags.len() == 0 && q >= n {
            return Err(ParseError);
        }
        let end = trim_end_exec(&chars, q, n);
        let description = string_from_range(&chars, q, end);
        Ok(Item { title, tags, description })
    }
}

/// What the export reads of a Discord message.
pub struct MessageData {
    pub id: MessageId,
    pub channel_id: ChannelId,
    pub content: String,
    pub author_id: UserId,
    /// The author's display name: their global name if they have one, else their user name.
    pub author_display_name: String,
    /// When the message was posted, in RFC 3339.
    pub timestamp: String,
    /// When the message was last edited, in RFC 3339, if it was.
    pub edited_timestamp: Option<String>,
    /// The reactions on the message, one per reaction type.
    pub reactions: Vec<ReactionType>,
}

/// An item together with the facts of the message that posted it.
pub struct ItemWithMetadata {
    pub item: Item,
    pub message_id: MessageId,
    pub posted_by: UserId,
    pub posted_by_display_name: String,
    /// In RFC 3339.
    pub created_at: String,
    /// In RFC 3339.
    pub modified_at: Option<String>,
}

impl ItemWithMetadata {
    /// The item posted by `msg`, if its content is an item.
    pub fn try_from_message(msg: MessageData) -> (res: Result<ItemWithMetadata, ParseError>)
        ensures
            match parse_item(msg.content@) {
                Some(v) => res matches Ok(it) && it.item@ == v && it.message_id == msg.id
                    && it.posted_by == msg.author_id && it.posted_by_display_name
                    == msg.author_display_name && it.created_at == msg.timestamp
                    && it.modified_at == msg.edited_timestamp,
                None => res is Err,
            },
    {
        let item = Item::parse(msg.content.as_str())?;
        Ok(
            ItemWithMetadata {
                item,
                message_id: msg.id,
                posted_by: msg.author_id,
                posted_by_display_name: msg.author_display_name,
                created_at: msg.timestamp,
                modified_at: msg.edited_timestamp,
            },
        )
    }
}

impl core::str::FromStr for Item {
    type Err = ParseError;

    fn from_str(input: &str) -> (res: Result<Item, ParseError>)
        ensures
            match parse_item(input@) {
                Some(v) => res matches Ok(item) && item@ == v,
                None => res is Err,
            },
    {
        Item::parse(input)
    }
}

} // verus!
