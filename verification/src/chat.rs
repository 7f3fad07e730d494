//! Chat message primitives: roles and part types in their domain and stored
//! spellings, the conversions between a message and its stored row, and the
//! plain-text rendering of a message body.

use vstd::prelude::*;
use crate::text::{join, joined};

verus! {

// ── roles ───────────────────────────────────────────────────────────────────

/// Who authored a message.
#[derive(Debug, Clone, Copy, PartialEq, Eq, Structural)]
pub enum MessageRole {
    User,
    Assistant,
    System,
}

/// The role as the `messages` table stores it.
#[derive(Debug, Clone, Copy, PartialEq, Eq, Structural)]
pub enum StoredMessageRole {
    User,
    Assistant,
    System,
}

/// The domain role of a stored role.
pub open spec fn spec_role_from_entity(role: StoredMessageRole) -> MessageRole {
    match role {
        StoredMessageRole::User => MessageRole::User,
        StoredMessageRole::Assistant => MessageRole::Assistant,
        StoredMessageRole::System => MessageRole::System,
    }
}

/// The stored role of a domain role.
pub open spec fn spec_role_to_entity(role: MessageRole) -> StoredMessageRole {
    match role {
        MessageRole::User => StoredMessageRole::User,
        MessageRole::Assistant => StoredMessageRole::Assistant,
        MessageRole::System => StoredMessageRole::System,
    }
}

/// Map the persisted role to the domain role; total, one variant to one.
pub fn role_from_entity(role: &StoredMessageRole) -> (r: MessageRole)
    ensures
        r == spec_role_from_entity(*role),
{
    match role {
        StoredMessageRole::User => MessageRole::User,
        StoredMessageRole::Assistant => MessageRole::Assistant,
        StoredMessageRole::System => MessageRole::System,
    }
}

/// Map the domain role to the persisted role.
pub fn role_to_entity(role: &MessageRole) -> (r: StoredMessageRole)
    ensures
        r == spec_role_to_entity(*role),
{
    match role {
        MessageRole::User => StoredMessageRole::User,
        MessageRole::Assistant => StoredMessageRole::Assistant,
        MessageRole::System => StoredMessageRole::System,
    }
}

/// Storing a role and reading it back gives the role, and the other way
/// round: the two mappings are inverse bijections.
pub proof fn law_role_mapping_round_trip(role: MessageRole, stored: StoredMessageRole)
    ensures
        spec_role_from_entity(spec_role_to_entity(role)) == role,
        spec_role_to_entity(spec_role_from_entity(stored)) == stored,
{
}

// ── part types ──────────────────────────────────────────────────────────────

/// Kind of a message part.
#[derive(Debug, Clone, Copy, PartialEq, Eq, Structural)]
pub enum MessagePartType {
    Text,
    Code,
    Images,
    Videos,
    Links,
    Statuses,
}

/// The part type as the `message_parts` table stores it.
#[derive(Debug, Clone, Copy, PartialEq, Eq, Structural)]
pub enum StoredMessagePartType {
    Text,
    Code,
    Images,
    Videos,
    Links,
    Statuses,
}

/// The domain part type of a stored part type.
pub open spec fn spec_part_type_from_entity(t: StoredMessagePartType) -> MessagePartType {
    match t {
        StoredMessagePartType::Text => MessagePartType::Text,
        StoredMessagePartType::Code => MessagePartType::Code,
        StoredMessagePartType::Images => MessagePartType::Images,
        StoredMessagePartType::Videos => MessagePartType::Videos,
        StoredMessagePartType::Links => MessagePartType::Links,
        StoredMessagePartType::Statuses => MessagePartType::Statuses,
    }
}

/// The stored part type of a domain part type.
pub open spec fn spec_part_type_to_entity(t: MessagePartType) -> StoredMessagePartType {
    match t {
        MessagePartType::Text => StoredMessagePartType::Text,
        MessagePartType::Code => StoredMessagePartType::Code,
        MessagePartType::Images => StoredMessagePartType::Images,
        MessagePartType::Videos => StoredMessagePartType::Videos,
        MessagePartType::Links => StoredMessagePartType::Links,
        MessagePartType::Statuses => StoredMessagePartType::Statuses,
    }
}

/// Map the persisted part type to the domain part type; total.
pub fn part_type_from_entity(t: &StoredMessagePartType) -> (r: MessagePartType)
    ensures
        r == spec_part_type_from_entity(*t),
{
    match t {
        StoredMessagePartType::Text => MessagePartType::Text,
        StoredMessagePartType::Code => MessagePartType::Code,
        StoredMessagePartType::Images => MessagePartType::Images,
        StoredMessagePartType::Videos => MessagePartType::Videos,
        StoredMessagePartType::Links => MessagePartType::Links,
        StoredMessagePartType::Statuses => MessagePartType::Statuses,
    }
}

/// Map the domain part type to the persisted part type.
pub fn part_type_to_entity(t: &MessagePartType) -> (r: StoredMessagePartType)
    ensures
        r == spec_part_type_to_entity(*t),
{
    match t {
        MessagePartType::Text => StoredMessagePartType::Text,
        MessagePartType::Code => StoredMessagePartType::Code,
        MessagePartType::Images => StoredMessagePartType::Images,
        MessagePartType::Videos => StoredMessagePartType::Videos,
        MessagePartType::Links => StoredMessagePartType::Links,
        MessagePartType::Statuses => StoredMessagePartType::Statuses,
    }
}

/// Storing a part type and reading it back gives the part type, and the
/// other way round.
pub proof fn law_part_type_mapping_round_trip(t: MessagePartType, stored: StoredMessagePartType)
    ensures
        spec_part_type_from_entity(spec_part_type_to_entity(t)) == t,
        spec_part_type_to_entity(spec_part_type_from_entity(stored)) == stored,
{
}

/// The name of a domain part type, as its variant is written.
pub open spec fn part_type_name(t: MessagePartType) -> Seq<char> {
    match t {
        MessagePartType::Text => "Text"@,
        MessagePartType::Code => "Code"@,
        MessagePartType::Images => "Images"@,
        MessagePartType::Videos => "Videos"@,
        MessagePartType::Links => "Links"@,
        MessagePartType::Statuses => "Statuses"@,
    }
}

/// The name of a stored part type, as its variant is written.
pub open spec fn stored_part_type_name(t: StoredMessagePartType) -> Seq<char> {
    match t {
        StoredMessagePartType::Text => "Text"@,
        StoredMessagePartType::Code => "Code"@,
        StoredMessagePartType::Images => "Images"@,
        StoredMessagePartType::Videos => "Videos"@,
        StoredMessagePartType::Links => "Links"@,
        StoredMessagePartType::Statuses => "Statuses"@,
    }
}

/// Names tell the part types apart: two part types of one enum with the
/// same name are the same.
pub proof fn lemma_part_type_names_distinct(
    a: MessagePartType,
    b: MessagePartType,
    c: StoredMessagePartType,
    d: StoredMessagePartType,
)
    ensures
        part_type_name(a) == part_type_name(b) ==> a == b,
        stored_part_type_name(c) == stored_part_type_name(d) ==> c == d,
{
    reveal_strlit("Text");
    reveal_strlit("Code");
    reveal_strlit("Images");
    reveal_strlit("Videos");
    reveal_strlit("Links");
    reveal_strlit("Statuses");
    assert("Text"@[0] == 'T' && "Code"@[0] == 'C' && "Images"@[0] == 'I' && "Videos"@[0] == 'V'
        && "Links"@[0] == 'L' && "Statuses"@[0] == 'S');
}

/// Reading a stored part type, or storing a domain one, keeps the variant
/// by name: `Images` stays `Images`, `Videos` stays `Videos`, and so on for
/// every part type.
pub proof fn law_part_type_mapping_keeps_names(t: MessagePartType, stored: StoredMessagePartType)
    ensures
        part_type_name(spec_part_type_from_entity(stored)) == stored_part_type_name(stored),
        stored_part_type_name(spec_part_type_to_entity(t)) == part_type_name(t),
{
}

/// The name of a domain role, as its variant is written.
pub open spec fn role_name(r: MessageRole) -> Seq<char> {
    match r {
        MessageRole::User => "User"@,
        MessageRole::Assistant => "Assistant"@,
        MessageRole::System => "System"@,
    }
}

/// The name of a stored role, as its variant is written.
pub open spec fn stored_role_name(r: StoredMessageRole) -> Seq<char> {
    match r {
        StoredMessageRole::User => "User"@,
        StoredMessageRole::Assistant => "Assistant"@,
        StoredMessageRole::System => "System"@,
    }
}

/// Reading a stored role, or storing a domain one, keeps the role by name.
pub proof fn law_role_mapping_keeps_names(role: MessageRole, stored: StoredMessageRole)
    ensures
        role_name(spec_role_from_entity(stored)) == stored_role_name(stored),
        stored_role_name(spec_role_to_entity(role)) == role_name(role),
{
}

// ── message parts and their text ────────────────────────────────────────────

/// One part of a message body. Of the part's JSON content the library reads
/// only the string under the `"text"` member, held in `text` (`None` when
/// the member is absent or not a string).
#[derive(Debug, Clone, PartialEq, Eq)]
pub struct MessagePart {
    pub id: u128,
    pub message_id: u128,
    pub part_type: MessagePartType,
    pub text: Option<String>,
    /// Position of the part within its message.
    pub number: u32,
}

impl MessagePart {
    /// A text part whose content holds `text`.
    pub fn text(id: u128, message_id: u128, number: u32, text: &str) -> (r: MessagePart)
        ensures
            r.id == id,
            r.message_id == message_id,
            r.part_type == MessagePartType::Text,
            r.text matches Some(t) && t@ == text@,
            r.number == number,
    {
        MessagePart { id, message_id, part_type: MessagePartType::Text, text: Some(text.to_owned()), number }
    }
}

/// The text that part `p` contributes to the plain text of its message.
pub open spec fn part_text(p: MessagePart) -> Option<Seq<char>> {
    if p.part_type == MessagePartType::Text {
        match p.text {
            Some(t) => Some(t@),
            None => None,
        }
    } else {
        None
    }
}

/// The `(number, text)` of every part of `parts` that contributes a text,
/// in slice order.
pub open spec fn text_entries(parts: Seq<MessagePart>) -> Seq<(u32, Seq<char>)>
    decreases parts.len(),
{
    if parts.len() == 0 {
        Seq::empty()
    } else {
        match part_text(parts.last()) {
            Some(t) => text_entries(parts.drop_last()).push((parts.last().number, t)),
            None => text_entries(parts.drop_last()),
        }
    }
}

/// `x` inserted into `s` after every entry whose number is at most its own.
pub open spec fn insert_by_number(s: Seq<(u32, Seq<char>)>, x: (u32, Seq<char>)) -> Seq<
    (u32, Seq<char>),
>
    decreases s.len(),
{
    if s.len() == 0 || s.last().0 <= x.0 {
        s.push(x)
    } else {
        insert_by_number(s.drop_last(), x).push(s.last())
    }
}

/// `s` sorted by number, stably: entries with equal numbers keep their
/// order.
pub open spec fn sort_by_number(s: Seq<(u32, Seq<char>)>) -> Seq<(u32, Seq<char>)>
    decreases s.len(),
{
    if s.len() == 0 {
        s
    } else {
        insert_by_number(sort_by_number(s.drop_last()), s.last())
    }
}

/// The texts of the text parts of `parts` in `number` order; parts with
/// equal numbers keep their slice order.
pub open spec fn ordered_texts(parts: Seq<MessagePart>) -> Seq<Seq<char>> {
    let s = sort_by_number(text_entries(parts));
    Seq::new(s.len(), |i: int| s[i].1)
}

/// Inserting before the first entry, from some point on, whose numbers all
/// exceed `x`'s is `insert_by_number`.
proof fn lemma_insert_at(s: Seq<(u32, Seq<char>)>, x: (u32, Seq<char>), j: int)
    requires
        0 <= j <= s.len(),
        forall|k: int| j <= k < s.len() ==> (#[trigger] s[k]).0 > x.0,
        j == 0 || s[j - 1].0 <= x.0,
    ensures
        insert_by_number(s, x) == s.insert(j, x),
    decreases s.len(),
{
    if s.len() == 0 {
        assert(s.insert(j, x) =~= seq![x]);
    } else if s.last().0 <= x.0 {
        if j < s.len() {
            assert(s[s.len() - 1].0 > x.0);
        }
        assert(s.insert(j, x) =~= s.push(x));
    } else {
        let d = s.drop_last();
        if j == s.len() {
            assert(s[j - 1].0 <= x.0);
        }
        assert forall|k: int| j <= k < d.len() implies (#[trigger] d[k]).0 > x.0 by {
            assert(d[k] == s[k]);
        }
        if j > 0 {
            assert(d[j - 1] == s[j - 1]);
        }
        lemma_insert_at(d, x, j);
        assert(s.insert(j, x) =~= d.insert(j, x).push(s.last()));
    }
}

/// The largest number in `s` and `x`, when `s` is ordered by number.
pub open spec fn insert_bound(s: Seq<(u32, Seq<char>)>, x: (u32, Seq<char>)) -> u32 {
    if s.len() == 0 || s.last().0 <= x.0 {
        x.0
    } else {
        s.last().0
    }
}

/// Inserting by number keeps a sequence ordered by number, and no entry
/// exceeds the larger of `x` and the last entry.
proof fn lemma_insert_sorted(s: Seq<(u32, Seq<char>)>, x: (u32, Seq<char>))
    requires
        forall|a: int, b: int| 0 <= a < b < s.len() ==> (#[trigger] s[a]).0 <= (#[trigger] s[b]).0,
    ensures
        insert_by_number(s, x).len() == s.len() + 1,
        forall|a: int, b: int|
            0 <= a < b < insert_by_number(s, x).len() ==> (#[trigger] insert_by_number(s, x)[a]).0
                <= (#[trigger] insert_by_number(s, x)[b]).0,
        forall|k: int|
            0 <= k < insert_by_number(s, x).len() ==> (#[trigger] insert_by_number(s, x)[k]).0
                <= insert_bound(s, x),
    decreases s.len(),
{
    let r = insert_by_number(s, x);
    if s.len() == 0 || s.last().0 <= x.0 {
        assert forall|k: int| 0 <= k < r.len() implies (#[trigger] r[k]).0 <= insert_bound(s, x) by {
            if k < s.len() && s.len() > 0 {
                assert(s[k].0 <= s[s.len() - 1].0 || k == s.len() - 1);
            }
        }
        assert forall|a: int, b: int| 0 <= a < b < r.len() implies (#[trigger] r[a]).0
            <= (#[trigger] r[b]).0 by {
            if b < s.len() {
                assert(s[a].0 <= s[b].0);
            } else {
                assert(s[a].0 <= s[s.len() - 1].0 || a == s.len() - 1);
            }
        }
    } else {
        let d = s.drop_last();
        assert forall|a: int, b: int| 0 <= a < b < d.len() implies (#[trigger] d[a]).0
            <= (#[trigger] d[b]).0 by {
            assert(d[a] == s[a] && d[b] == s[b]);
        }
        lemma_insert_sorted(d, x);
        let q = insert_by_number(d, x);
        if d.len() > 0 {
            assert(d[d.len() - 1].0 <= s[s.len() - 1].0);
        }
        assert(insert_bound(d, x) <= s.last().0);
        assert forall|k: int| 0 <= k < r.len() implies (#[trigger] r[k]).0 <= insert_bound(s, x) by {
            if k < q.len() {
                assert(r[k] == q[k]);
            }
        }
        assert forall|a: int, b: int| 0 <= a < b < r.len() implies (#[trigger] r[a]).0
            <= (#[trigger] r[b]).0 by {
            assert(r[a] == q[a]);
            if b < q.len() {
                assert(r[b] == q[b]);
            }
        }
    }
}

/// Sorting by number yields a sequence ordered by number.
proof fn lemma_sorted(s: Seq<(u32, Seq<char>)>)
    ensures
        sort_by_number(s).len() == s.len(),
        forall|a: int, b: int|
            0 <= a < b < sort_by_number(s).len() ==> (#[trigger] sort_by_number(s)[a]).0
                <= (#[trigger] sort_by_number(s)[b]).0,
    decreases s.len(),
{
    if s.len() > 0 {
        lemma_sorted(s.drop_last());
        lemma_insert_sorted(sort_by_number(s.drop_last()), s.last());
    }
}

/// The plain text of a message is built from its text parts in `number`
/// order: the entries it joins are ordered by part number.
pub proof fn law_message_text_in_number_order(parts: Seq<MessagePart>)
    ensures
        forall|a: int, b: int|
            0 <= a < b < sort_by_number(text_entries(parts)).len() ==> (#[trigger] sort_by_number(
                text_entries(parts),
            )[a]).0 <= (#[trigger] sort_by_number(text_entries(parts))[b]).0,
        ordered_texts(parts).len() == text_entries(parts).len(),
{
    lemma_sorted(text_entries(parts));
}

/// What a sequence with one more entry holds.
proof fn lemma_push_members<A>(s: Seq<A>, a: A)
    ensures
        forall|y: A| #[trigger] s.push(a).contains(y) <==> (s.contains(y) || y == a),
{
    assert forall|y: A| #[trigger] s.push(a).contains(y) <==> (s.contains(y) || y == a) by {
        if s.push(a).contains(y) {
            let i = choose|i: int| 0 <= i < s.push(a).len() && s.push(a)[i] == y;
            if i < s.len() {
                assert(s[i] == y);
            }
        }
        if s.contains(y) {
            let i = choose|i: int| 0 <= i < s.len() && s[i] == y;
            assert(s.push(a)[i] == y);
        }
        if y == a {
            assert(s.push(a)[s.len() as int] == y);
        }
    }
}

/// Inserting by number adds exactly the one entry.
proof fn lemma_insert_members(s: Seq<(u32, Seq<char>)>, x: (u32, Seq<char>))
    ensures
        forall|y: (u32, Seq<char>)| #[trigger] insert_by_number(s, x).contains(y) <==> (s.contains(y)
            || y == x),
    decreases s.len(),
{
    if s.len() == 0 || s.last().0 <= x.0 {
        lemma_push_members(s, x);
    } else {
        let d = s.drop_last();
        lemma_insert_members(d, x);
        lemma_push_members(insert_by_number(d, x), s.last());
        lemma_push_members(d, s.last());
        assert(d.push(s.last()) =~= s);
    }
}

/// Sorting by number keeps exactly the entries.
proof fn lemma_sort_members(s: Seq<(u32, Seq<char>)>)
    ensures
        forall|y: (u32, Seq<char>)| #[trigger] sort_by_number(s).contains(y) <==> s.contains(y),
    decreases s.len(),
{
    if s.len() > 0 {
        let d = s.drop_last();
        lemma_sort_members(d);
        lemma_insert_members(sort_by_number(d), s.last());
        lemma_push_members(d, s.last());
        assert(d.push(s.last()) =~= s);
    }
}

/// Part `j` is a text part whose content holds the text string `t`.
pub open spec fn is_text_part_with(parts: Seq<MessagePart>, j: int, t: Seq<char>) -> bool {
    &&& 0 <= j < parts.len()
    &&& parts[j].part_type == MessagePartType::Text
    &&& parts[j].text matches Some(s) && s@ == t
}

/// The entries a message's text is built from are exactly the
/// `(number, text)` of its text parts that hold a text string.
proof fn lemma_text_entries_members(parts: Seq<MessagePart>)
    ensures
        forall|y: (u32, Seq<char>)| #[trigger] text_entries(parts).contains(y) <==> exists|j: int|
            is_text_part_with(parts, j, y.1) && parts[j].number == y.0,
    decreases parts.len(),
{
    if parts.len() > 0 {
        let d = parts.drop_last();
        let p = parts.last();
        let last = parts.len() - 1;
        assert(parts[last] == p);
        lemma_text_entries_members(d);
        match part_text(p) {
            Some(t) => {
                lemma_push_members(text_entries(d), (p.number, t));
                assert(text_entries(parts) == text_entries(d).push((p.number, t)));
                assert(is_text_part_with(parts, last, t));
            },
            None => {
                assert(text_entries(parts) == text_entries(d));
            },
        }
        assert forall|y: (u32, Seq<char>)| #[trigger] text_entries(parts).contains(y) implies exists|
            j: int,
        | is_text_part_with(parts, j, y.1) && parts[j].number == y.0 by {
            if text_entries(d).contains(y) {
                let j = choose|j: int| is_text_part_with(d, j, y.1) && d[j].number == y.0;
                assert(parts[j] == d[j]);
                assert(is_text_part_with(parts, j, y.1) && parts[j].number == y.0);
            } else {
                assert(is_text_part_with(parts, last, y.1) && parts[last].number == y.0);
            }
        }
        assert forall|y: (u32, Seq<char>)| (exists|j: int|
            is_text_part_with(parts, j, y.1) && parts[j].number == y.0) implies #[trigger] text_entries(
            parts,
        ).contains(y) by {
            let j = choose|j: int| is_text_part_with(parts, j, y.1) && parts[j].number == y.0;
            if j < last {
                assert(parts[j] == d[j]);
                assert(is_text_part_with(d, j, y.1) && d[j].number == y.0);
                assert(text_entries(d).contains(y));
            } else {
                assert(part_text(p) == Some(y.1));
            }
        }
    }
}

/// How many parts of `parts` are text parts holding a text string.
pub open spec fn text_part_count(parts: Seq<MessagePart>) -> nat {
    parts.filter(|p: MessagePart| p.part_type == MessagePartType::Text && p.text is Some).len()
}

proof fn lemma_text_entries_count(parts: Seq<MessagePart>)
    ensures
        text_entries(parts).len() == text_part_count(parts),
    decreases parts.len(),
{
    reveal(Seq::filter);
    if parts.len() > 0 {
        lemma_text_entries_count(parts.drop_last());
    }
}

/// Line `i` of a message's plain text is the text string of a text part.
pub open spec fn line_from_text_part(parts: Seq<MessagePart>, i: int) -> bool {
    exists|j: int| is_text_part_with(parts, j, ordered_texts(parts)[i])
}

/// Only text parts speak in a message's plain text, and every text part
/// with a text string does: each line of `ordered_texts` is the text string
/// of some part whose type is `Text`, and the text string of every such
/// part is one of the lines, once per such part. A part of another type
/// never contributes, whatever its content holds.
pub proof fn law_message_text_only_from_text_parts(parts: Seq<MessagePart>)
    ensures
        ordered_texts(parts).len() == text_part_count(parts),
        forall|i: int|
            0 <= i < ordered_texts(parts).len() ==> #[trigger] line_from_text_part(parts, i),
        forall|j: int, t: Seq<char>|
            #[trigger] is_text_part_with(parts, j, t) ==> ordered_texts(parts).contains(t),
{
    let e = text_entries(parts);
    let s = sort_by_number(e);
    lemma_text_entries_count(parts);
    lemma_sorted(e);
    lemma_text_entries_members(parts);
    lemma_sort_members(e);
    assert forall|i: int| 0 <= i < ordered_texts(parts).len() implies #[trigger] line_from_text_part(
        parts,
        i,
    ) by {
        assert(s[i] == s[i]);
        assert(s.contains(s[i]));
        assert(e.contains(s[i]));
        let j = choose|j: int| is_text_part_with(parts, j, s[i].1) && parts[j].number == s[i].0;
        assert(ordered_texts(parts)[i] == s[i].1);
        assert(is_text_part_with(parts, j, ordered_texts(parts)[i]));
    }
    assert forall|j: int, t: Seq<char>| #[trigger] is_text_part_with(parts, j, t) implies ordered_texts(
        parts,
    ).contains(t) by {
        let y = (parts[j].number, t);
        assert(is_text_part_with(parts, j, y.1) && parts[j].number == y.0);
        assert(e.contains(y));
        assert(s.contains(y));
        let i = choose|i: int| 0 <= i < s.len() && s[i] == y;
        assert(ordered_texts(parts)[i] == t);
    }
}

/// The abstract contents of `(number, text)` pairs.
pub open spec fn entries_view(v: Seq<(u32, String)>) -> Seq<(u32, Seq<char>)> {
    Seq::new(v.len(), |i: int| (v[i].0, v[i].1@))
}

/// The plain text of a message: the texts of its text parts in `number`
/// order (parts with equal numbers in slice order), joined by newlines.
/// Other parts, and text parts without a text string, contribute nothing.
pub fn message_text(parts: &[MessagePart]) -> (r: String)
    ensures
        r@ == joined(ordered_texts(parts@), "\n"@),
{
    let mut sorted: Vec<(u32, String)> = Vec::new();
    let mut i: usize = 0;
    while i < parts.len()
        invariant
            i <= parts.len(),
            entries_view(sorted@) == sort_by_number(text_entries(parts@.take(i as int))),
        decreases parts.len() - i,
    {
        let ghost e = text_entries(parts@.take(i as int));
        assert(parts@.take(i + 1).drop_last() =~= parts@.take(i as int));
        assert(parts@.take(i + 1).last() == parts@[i as int]);
        let p = &parts[i];
        let is_text = match p.part_type {
            MessagePartType::Text => true,
            _ => false,
        };
        if is_text && p.text.is_some() {
            let t = p.text.as_ref().unwrap();
            let ghost s = entries_view(sorted@);
            let ghost x = (p.number, t@);
            assert(part_text(parts@[i as int]) == Some(t@));
            assert(text_entries(parts@.take(i + 1)) == e.push(x));
            assert(e.push(x).drop_last() =~= e);
            assert(sort_by_number(e.push(x)) == insert_by_number(s, x));
            proof {
                lemma_sorted(e);
            }
            let mut j: usize = sorted.len();
            while j > 0 && sorted[j - 1].0 > p.number
                invariant
                    j <= sorted@.len(),
                    s == entries_view(sorted@),
                    x == (p.number, t@),
                    forall|k: int| j <= k < s.len() ==> (#[trigger] s[k]).0 > x.0,
                decreases j,
            {
                j = j - 1;
            }
            proof {
                if j > 0 {
                    assert(s[j - 1] == (sorted@[j - 1].0, sorted@[j - 1].1@));
                }
                lemma_insert_at(s, x, j as int);
            }
            let ghost raw = sorted@;
            sorted.insert(j, (p.number, t.clone()));
            assert(entries_view(sorted@) =~= s.insert(j as int, x)) by {
                assert forall|k: int| 0 <= k < sorted@.len() implies #[trigger] entries_view(
                    sorted@,
                )[k] == s.insert(j as int, x)[k] by {
                    if k < j {
                        assert(sorted@[k] == raw[k]);
                    } else if k > j {
                        assert(sorted@[k] == raw[k - 1]);
                    }
                }
            }
        } else {
            assert(part_text(parts@[i as int]) is None);
            assert(text_entries(parts@.take(i + 1)) == e);
        }
        i = i + 1;
    }
    assert(parts@.take(parts.len() as int) =~= parts@);
    let mut texts: Vec<String> = Vec::new();
    let mut k: usize = 0;
    let ghost s = entries_view(sorted@);
    while k < sorted.len()
        invariant
            k <= sorted@.len(),
            s == entries_view(sorted@),
            texts.deep_view() == Seq::new(k as nat, |m: int| s[m].1),
        decreases sorted@.len() - k,
    {
        let ghost before = texts.deep_view();
        let c = sorted[k].1.clone();
        assert(c@ == s[k as int].1);
        texts.push(c);
        assert(texts.deep_view() =~= before.push(s[k as int].1));
        assert(texts.deep_view() =~= Seq::new((k + 1) as nat, |m: int| s[m].1));
        k = k + 1;
    }
    assert(texts.deep_view() =~= ordered_texts(parts@));
    join(&texts, "\n")
}

// ── messages and their stored rows ──────────────────────────────────────────

/// The `u32` a stored `i32` counter stands for: negative values, which the
/// write path never produces, read as 0.
pub open spec fn spec_clamp_to_u32(v: i32) -> u32 {
    if v < 0 {
        0
    } else {
        v as u32
    }
}

/// The `i32` a `u32` counter is stored as: values above `i32::MAX` are
/// stored as `i32::MAX`.
pub open spec fn spec_clamp_to_i32(v: u32) -> i32 {
    if v > i32::MAX {
        i32::MAX
    } else {
        v as i32
    }
}

/// Read a stored counter.
pub fn clamp_to_u32(v: i32) -> (r: u32)
    ensures
        r == spec_clamp_to_u32(v),
{
    if v < 0 {
        0
    } else {
        v as u32
    }
}

/// Store a counter.
pub fn clamp_to_i32(v: u32) -> (r: i32)
    ensures
        r == spec_clamp_to_i32(v),
{
    if v > 0x7fff_ffffu32 {
        0x7fff_ffffi32
    } else {
        v as i32
    }
}

/// A stored identity: `None` for an absent or empty column.
pub open spec fn spec_non_empty(o: Option<String>) -> Option<Seq<char>> {
    match o {
        Some(s) => if s@.len() == 0 {
            None
        } else {
            Some(s@)
        },
        None => None,
    }
}

/// The abstract value of an optional string.
pub open spec fn opt_seq(o: Option<String>) -> Option<Seq<char>> {
    match o {
        Some(s) => Some(s@),
        None => None,
    }
}

/// Keep a stored identity only when it is non-empty.
fn non_empty(o: Option<String>) -> (r: Option<String>)
    ensures
        opt_seq(r) == spec_non_empty(o),
{
    match o {
        Some(s) => if s.as_str().is_empty() {
            None
        } else {
            Some(s)
        },
        None => None,
    }
}

/// A chat message. Times are nanoseconds since the Unix epoch; `metadata`
/// is the message's JSON metadata document, carried as text.
#[derive(Debug, Clone, PartialEq, Eq)]
pub struct Message {
    pub message_id: u128,
    pub session_id: u128,
    pub tenant_id: Option<String>,
    pub user_id: Option<String>,
    pub parent_message_id: Option<u128>,
    pub variant_index: u32,
    pub is_active: bool,
    pub role: MessageRole,
    pub parts: Vec<MessagePart>,
    pub file_ids: Vec<u128>,
    pub metadata: Option<String>,
    pub is_complete: bool,
    pub is_hidden_from_user: bool,
    pub is_hidden_from_backend: bool,
    pub created_at: i128,
    pub updated_at: i128,
}

/// A row of the `messages` table. `file_ids` is the decoded JSON column:
/// `None` when the column is NULL or does not hold a list of UUIDs. The
/// table has no `updated_at`.
#[derive(Debug, Clone, PartialEq, Eq)]
pub struct MessageRow {
    pub message_id: u128,
    pub session_id: u128,
    pub tenant_id: Option<String>,
    pub user_id: Option<String>,
    pub parent_message_id: Option<u128>,
    pub role: StoredMessageRole,
    pub file_ids: Option<Vec<u128>>,
    pub variant_index: i32,
    pub is_active: bool,
    pub is_complete: bool,
    pub is_hidden_from_user: bool,
    pub is_hidden_from_backend: bool,
    pub metadata: Option<String>,
    pub created_at: i128,
}

/// `r` is the message that stored row `m` describes: parts live in their
/// own table, so `r` has none; empty identities read as absent; undecodable
/// file ids read as none; `updated_at` is the creation time.
pub open spec fn message_of_row(r: Message, m: MessageRow) -> bool {
    &&& r.message_id == m.message_id
    &&& r.session_id == m.session_id
    &&& opt_seq(r.tenant_id) == spec_non_empty(m.tenant_id)
    &&& opt_seq(r.user_id) == spec_non_empty(m.user_id)
    &&& r.parent_message_id == m.parent_message_id
    &&& r.variant_index == spec_clamp_to_u32(m.variant_index)
    &&& r.is_active == m.is_active
    &&& r.role == spec_role_from_entity(m.role)
    &&& r.parts@.len() == 0
    &&& r.file_ids@ == (match m.file_ids {
        Some(v) => v@,
        None => Seq::<u128>::empty(),
    })
    &&& opt_seq(r.metadata) == opt_seq(m.metadata)
    &&& r.is_complete == m.is_complete
    &&& r.is_hidden_from_user == m.is_hidden_from_user
    &&& r.is_hidden_from_backend == m.is_hidden_from_backend
    &&& r.created_at == m.created_at
    &&& r.updated_at == m.created_at
}

/// `r` is the row that stores message `m`: an empty file-id list is stored
/// as NULL; parts and `updated_at` are not stored in this table.
pub open spec fn row_of_message(r: MessageRow, m: Message) -> bool {
    &&& r.message_id == m.message_id
    &&& r.session_id == m.session_id
    &&& opt_seq(r.tenant_id) == opt_seq(m.tenant_id)
    &&& opt_seq(r.user_id) == opt_seq(m.user_id)
    &&& r.parent_message_id == m.parent_message_id
    &&& r.role == spec_role_to_entity(m.role)
    &&& (m.file_ids@.len() == 0 ==> r.file_ids is None)
    &&& (m.file_ids@.len() > 0 ==> (r.file_ids matches Some(v) && v@ == m.file_ids@))
    &&& r.variant_index == spec_clamp_to_i32(m.variant_index)
    &&& r.is_active == m.is_active
    &&& r.is_complete == m.is_complete
    &&& r.is_hidden_from_user == m.is_hidden_from_user
    &&& r.is_hidden_from_backend == m.is_hidden_from_backend
    &&& opt_seq(r.metadata) == opt_seq(m.metadata)
    &&& r.created_at == m.created_at
}

/// The message a stored row describes.
pub fn message_from_row(m: MessageRow) -> (r: Message)
    ensures
        message_of_row(r, m),
{
    let role = role_from_entity(&m.role);
    let file_ids = match m.file_ids {
        Some(v) => v,
        None => Vec::new(),
    };
    Message {
        message_id: m.message_id,
        session_id: m.session_id,
        tenant_id: non_empty(m.tenant_id),
        user_id: non_empty(m.user_id),
        parent_message_id: m.parent_message_id,
        variant_index: clamp_to_u32(m.variant_index),
        is_active: m.is_active,
        role,
        parts: Vec::new(),
        file_ids,
        metadata: m.metadata,
        is_complete: m.is_complete,
        is_hidden_from_user: m.is_hidden_from_user,
        is_hidden_from_backend: m.is_hidden_from_backend,
        created_at: m.created_at,
        updated_at: m.created_at,
    }
}

/// The row that stores message `m`.
pub fn message_to_row(m: Message) -> (r: MessageRow)
    ensures
        row_of_message(r, m),
{
    let role = role_to_entity(&m.role);
    let file_ids = if m.file_ids.len() == 0 {
        None
    } else {
        Some(m.file_ids)
    };
    MessageRow {
        message_id: m.message_id,
        session_id: m.session_id,
        tenant_id: m.tenant_id,
        user_id: m.user_id,
        parent_message_id: m.parent_message_id,
        role,
        file_ids,
        variant_index: clamp_to_i32(m.variant_index),
        is_active: m.is_active,
        is_complete: m.is_complete,
        is_hidden_from_user: m.is_hidden_from_user,
        is_hidden_from_backend: m.is_hidden_from_backend,
        metadata: m.metadata,
        created_at: m.created_at,
    }
}

/// Two rows that store the same values.
pub open spec fn same_row(a: MessageRow, b: MessageRow) -> bool {
    &&& a.message_id == b.message_id
    &&& a.session_id == b.session_id
    &&& opt_seq(a.tenant_id) == opt_seq(b.tenant_id)
    &&& opt_seq(a.user_id) == opt_seq(b.user_id)
    &&& a.parent_message_id == b.parent_message_id
    &&& a.role == b.role
    &&& (match (a.file_ids, b.file_ids) {
        (Some(x), Some(y)) => x@ == y@,
        (None, None) => true,
        _ => false,
    })
    &&& a.variant_index == b.variant_index
    &&& a.is_active == b.is_active
    &&& a.is_complete == b.is_complete
    &&& a.is_hidden_from_user == b.is_hidden_from_user
    &&& a.is_hidden_from_backend == b.is_hidden_from_backend
    &&& opt_seq(a.metadata) == opt_seq(b.metadata)
    &&& a.created_at == b.created_at
}

/// Reading a row and storing the message again gives the row back, for
/// every row the write path produces: no empty identity, no negative
/// variant index, and no stored empty file-id list.
pub proof fn law_row_round_trip(row: MessageRow, msg: Message, back: MessageRow)
    requires
        message_of_row(msg, row),
        row_of_message(back, msg),
        row.tenant_id matches Some(t) ==> t@.len() > 0,
        row.user_id matches Some(u) ==> u@.len() > 0,
        row.variant_index >= 0,
        row.file_ids matches Some(v) ==> v@.len() > 0,
    ensures
        same_row(back, row),
{
}

/// Storing a message and reading the row back gives the message without
/// its parts, with `updated_at` reset to the creation time, for every
/// message whose identities are non-empty and whose variant index fits the
/// stored counter.
pub proof fn law_message_round_trip(msg: Message, row: MessageRow, back: Message)
    requires
        row_of_message(row, msg),
        message_of_row(back, row),
        msg.tenant_id matches Some(t) ==> t@.len() > 0,
        msg.user_id matches Some(u) ==> u@.len() > 0,
        msg.variant_index <= i32::MAX,
    ensures
        back.message_id == msg.message_id,
        back.session_id == msg.session_id,
        opt_seq(back.tenant_id) == opt_seq(msg.tenant_id),
        opt_seq(back.user_id) == opt_seq(msg.user_id),
        back.parent_message_id == msg.parent_message_id,
        back.variant_index == msg.variant_index,
        back.role == msg.role,
        back.file_ids@ == msg.file_ids@,
        opt_seq(back.metadata) == opt_seq(msg.metadata),
        back.is_active == msg.is_active,
        back.is_complete == msg.is_complete,
        back.is_hidden_from_user == msg.is_hidden_from_user,
        back.is_hidden_from_backend == msg.is_hidden_from_backend,
        back.created_at == msg.created_at,
        back.updated_at == msg.created_at,
        back.parts@.len() == 0,
{
}

} // verus!
