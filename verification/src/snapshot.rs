//! The snapshot of a worker's session that is handed to the advisor model:
//! the worker's summary and the most recent messages and tool results.

use vstd::prelude::*;
use vstd::string::*;

use crate::text::{
    append_within, lemma_take_chars_absorbs, lemma_take_chars_is_prefix, take_chars, take_chars_spec,
};

verus! {

/// The most characters of the worker's summary that a snapshot quotes.
pub const MAX_SUMMARY_CHARS: usize = 3000;

/// The most characters of one message or tool result that a snapshot quotes.
pub const MAX_ENTRY_CHARS: usize = 700;

/// The most history entries that a snapshot quotes.
pub const MAX_RECENT_ENTRIES: usize = 8;

/// The most characters of a whole snapshot.
pub const MAX_SNAPSHOT_CHARS: usize = 8000;

/// One part of a message's content.
#[derive(Debug)]
pub enum ContentItem {
    /// Text that was given to a model.
    InputText { text: String },
    /// Text that a model produced.
    OutputText { text: String },
    /// A part that carries no text, such as an image.
    NonText,
}

/// One item of a conversation's history, or of a model's response.
#[derive(Debug)]
pub enum HistoryItem {
    /// A message of `role` ("user", "assistant", ...) with its content.
    Message { role: String, content: Vec<ContentItem> },
    /// The output of a tool call; `text` is its text content, where it has one.
    ToolResult { text: Option<String> },
    /// Any other item (reasoning, tool calls, ...).
    Other,
}

/// The text of a content part: its text for input and output text, else nothing.
pub open spec fn content_text(c: ContentItem) -> Seq<char> {
    match c {
        ContentItem::InputText { text } => text@,
        ContentItem::OutputText { text } => text@,
        ContentItem::NonText => Seq::empty(),
    }
}

/// The texts of all content parts, one after another.
pub open spec fn joined_text(cs: Seq<ContentItem>) -> Seq<char>
    decreases cs.len(),
{
    if cs.len() == 0 {
        Seq::empty()
    } else {
        joined_text(cs.drop_last()) + content_text(cs.last())
    }
}

/// What a snapshot quotes of a message's content: the first
/// `MAX_ENTRY_CHARS` characters of its joined text.
pub open spec fn message_text(cs: Seq<ContentItem>) -> Seq<char> {
    take_chars_spec(joined_text(cs), MAX_ENTRY_CHARS as nat)
}

/// The line that a snapshot gives to a history item, if any: a message
/// with text as "role: text", a tool result with text as
/// "tool result: text"; nothing for the rest.
pub open spec fn entry_of(item: HistoryItem) -> Option<Seq<char>> {
    match item {
        HistoryItem::Message { role, content } => {
            let t = message_text(content@);
            if t.len() == 0 {
                None
            } else {
                Some(role@ + ": "@ + t)
            }
        },
        HistoryItem::ToolResult { text } => match text {
            Some(t) => Some("tool result: "@ + take_chars_spec(t@, MAX_ENTRY_CHARS as nat)),
            None => None,
        },
        HistoryItem::Other => None,
    }
}

/// The lines of the last `k` items of `items` that have one, oldest first.
pub open spec fn recent_entries(items: Seq<HistoryItem>, k: nat) -> Seq<Seq<char>>
    decreases items.len(),
{
    if items.len() == 0 || k == 0 {
        Seq::empty()
    } else {
        match entry_of(items.last()) {
            Some(e) => recent_entries(items.drop_last(), (k - 1) as nat).push(e),
            None => recent_entries(items.drop_last(), k),
        }
    }
}

/// Each line followed by a line break.
pub open spec fn join_lines(lines: Seq<Seq<char>>) -> Seq<char>
    decreases lines.len(),
{
    if lines.len() == 0 {
        Seq::empty()
    } else {
        join_lines(lines.drop_last()) + lines.last() + "\n"@
    }
}

/// The opening of every snapshot.
pub open spec fn summary_heading() -> Seq<char> {
    "Worker summary and current question:\n"@
}

/// The heading of the recent history in a snapshot.
pub open spec fn recent_heading() -> Seq<char> {
    "\n\nRecent conversation and results:\n"@
}

/// The snapshot of `history` with the worker's `summary`: the summary
/// heading, the summary's first `MAX_SUMMARY_CHARS` characters, the recent
/// heading, the lines of the last `MAX_RECENT_ENTRIES` items that have one,
/// all cut to `MAX_SNAPSHOT_CHARS` characters.
pub open spec fn snapshot_spec(history: Seq<HistoryItem>, summary: Seq<char>) -> Seq<char> {
    take_chars_spec(
        summary_heading() + take_chars_spec(summary, MAX_SUMMARY_CHARS as nat) + recent_heading()
            + join_lines(recent_entries(history, MAX_RECENT_ENTRIES as nat)),
        MAX_SNAPSHOT_CHARS as nat,
    )
}

/// The first `MAX_ENTRY_CHARS` characters of the joined text of `content`.
pub fn message_text_of(content: &Vec<ContentItem>) -> (t: String)
    ensures
        t@ == message_text(content@),
{
    let mut text = String::new();
    let n = content.len();
    for k in 0..n
        invariant
            n == content@.len(),
            text@ == take_chars_spec(joined_text(content@.take(k as int)), MAX_ENTRY_CHARS as nat),
            text@.len() <= MAX_ENTRY_CHARS,
    {
        let ghost before = joined_text(content@.take(k as int));
        assert(content@.take(k + 1).drop_last() =~= content@.take(k as int));
        match &content[k] {
            ContentItem::InputText { text: part } => {
                append_within(&mut text, part.as_str(), MAX_ENTRY_CHARS);
            },
            ContentItem::OutputText { text: part } => {
                append_within(&mut text, part.as_str(), MAX_ENTRY_CHARS);
            },
            ContentItem::NonText => {},
        }
        proof {
            lemma_take_chars_absorbs(before, content_text(content@[k as int]), MAX_ENTRY_CHARS as nat);
            assert(joined_text(content@.take(k + 1)) == before + content_text(content@[k as int]));
            assert(before + Seq::<char>::empty() =~= before);
        }
    }
    assert(content@.take(n as int) =~= content@);
    text
}

/// The line of a history item, if it has one.
pub fn entry_for(item: &HistoryItem) -> (e: Option<String>)
    ensures
        e matches Some(s) ==> entry_of(*item) == Some(s@),
        e is None ==> entry_of(*item) is None,
{
    match item {
        HistoryItem::Message { role, content } => {
            let t = message_text_of(content);
            if t.as_str().unicode_len() == 0 {
                None
            } else {
                let line = role.clone().concat(": ").concat(t.as_str());
                Some(line)
            }
        },
        HistoryItem::ToolResult { text } => match text {
            Some(t) => {
                let cut = take_chars(t.as_str(), MAX_ENTRY_CHARS);
                Some(String::from_str("tool result: ").concat(cut.as_str()))
            },
            None => None,
        },
        HistoryItem::Other => None,
    }
}


/// The lines of the last `MAX_RECENT_ENTRIES` history items that have one,
/// newest first.
fn recent_lines_newest_first(history: &Vec<HistoryItem>) -> (picked: Vec<String>)
    ensures
        picked@.len() <= MAX_RECENT_ENTRIES,
        picked@.map_values(|s: String| s@).reverse() == recent_entries(
            history@,
            MAX_RECENT_ENTRIES as nat,
        ),
{
    let mut picked: Vec<String> = Vec::new();
    let mut i: usize = history.len();
    let ghost mut pv: Seq<Seq<char>> = Seq::empty();
    assert(history@.take(i as int) =~= history@);
    while i > 0 && picked.len() < MAX_RECENT_ENTRIES
        invariant
            i <= history@.len(),
            picked@.len() <= MAX_RECENT_ENTRIES,
            pv == picked@.map_values(|s: String| s@),
            recent_entries(history@, MAX_RECENT_ENTRIES as nat) == recent_entries(
                history@.take(i as int),
                (MAX_RECENT_ENTRIES - picked@.len()) as nat,
            ) + pv.reverse(),
        decreases i,
    {
        let ghost r = (MAX_RECENT_ENTRIES - picked@.len()) as nat;
        let ghost before = history@.take(i as int);
        assert(before.drop_last() =~= history@.take(i - 1));
        assert(before.last() == history@[i - 1]);
        let e = entry_for(&history[i - 1]);
        match e {
            Some(line) => {
                let ghost lv = line@;
                picked.push(line);
                proof {
                    let old_pv = pv;
                    pv = pv.push(lv);
                    assert(pv =~= picked@.map_values(|s: String| s@));
                    assert(pv.reverse() =~= seq![lv] + old_pv.reverse());
                    let rest = recent_entries(history@.take(i - 1), (r - 1) as nat);
                    assert(rest.push(lv) + old_pv.reverse() =~= rest + pv.reverse());
                }
            },
            None => {},
        }
        i = i - 1;
    }
    assert(recent_entries(history@.take(i as int), (MAX_RECENT_ENTRIES - picked@.len()) as nat)
        =~= Seq::<Seq<char>>::empty());
    assert(recent_entries(history@, MAX_RECENT_ENTRIES as nat) =~= pv.reverse());
    picked
}

/// The snapshot of a worker's session that the advisor is given.
pub fn build_snapshot(history: &Vec<HistoryItem>, worker_summary: &str) -> (snapshot: String)
    ensures
        snapshot@ == snapshot_spec(history@, worker_summary@),
{
    let mut snapshot = String::from_str("Worker summary and current question:\n");
    let summary = take_chars(worker_summary, MAX_SUMMARY_CHARS);
    snapshot.append(summary.as_str());
    snapshot.append("\n\nRecent conversation and results:\n");
    let ghost prefix = snapshot@;
    let picked = recent_lines_newest_first(history);
    let ghost pv = picked@.map_values(|s: String| s@);
    let ghost rv = pv.reverse();
    let n = picked.len();
    let mut k: usize = n;
    assert(rv.take(0) =~= Seq::<Seq<char>>::empty());
    assert(prefix + join_lines(rv.take(0)) =~= prefix);
    while k > 0
        invariant
            k <= n,
            n == picked@.len(),
            pv == picked@.map_values(|s: String| s@),
            rv == pv.reverse(),
            snapshot@ == prefix + join_lines(rv.take((n - k) as int)),
        decreases k,
    {
        let ghost m = (n - k) as int;
        assert(rv[m] == picked@[k - 1]@);
        assert(rv.take(m + 1).drop_last() =~= rv.take(m));
        assert(rv.take(m + 1).last() == rv[m]);
        snapshot.append(picked[k - 1].as_str());
        snapshot.append("\n");
        assert(snapshot@ =~= prefix + join_lines(rv.take(m + 1)));
        k = k - 1;
    }
    assert(rv.take(n as int) =~= rv);
    take_chars(snapshot.as_str(), MAX_SNAPSHOT_CHARS)
}


/// A snapshot never exceeds `MAX_SNAPSHOT_CHARS` characters.
pub proof fn lemma_snapshot_is_bounded(history: Seq<HistoryItem>, summary: Seq<char>)
    ensures
        snapshot_spec(history, summary).len() <= MAX_SNAPSHOT_CHARS,
{
}

/// Every snapshot opens with the summary heading and the first
/// `MAX_SUMMARY_CHARS` characters of the worker's summary, whatever the
/// history holds.
pub proof fn lemma_snapshot_quotes_summary(history: Seq<HistoryItem>, summary: Seq<char>)
    ensures
        (summary_heading() + take_chars_spec(summary, MAX_SUMMARY_CHARS as nat)).is_prefix_of(
            snapshot_spec(history, summary),
        ),
{
    reveal_strlit("Worker summary and current question:\n");
    let head = summary_heading() + take_chars_spec(summary, MAX_SUMMARY_CHARS as nat);
    let whole = head + recent_heading() + join_lines(
        recent_entries(history, MAX_RECENT_ENTRIES as nat),
    );
    assert(head.len() <= MAX_SNAPSHOT_CHARS);
    assert(whole == head + (recent_heading() + join_lines(
        recent_entries(history, MAX_RECENT_ENTRIES as nat),
    )));
    assert forall|i: int| 0 <= i < head.len() implies head[i] == snapshot_spec(
        history,
        summary,
    )[i] by {
        assert(whole[i] == head[i]);
    }
}

/// At most `k` lines are taken from the history, and each quotes at most
/// `MAX_ENTRY_CHARS` characters of a message's text.
pub proof fn lemma_recent_entries_are_few(items: Seq<HistoryItem>, k: nat)
    ensures
        recent_entries(items, k).len() <= k,
        recent_entries(items, k).len() <= items.len(),
    decreases items.len(),
{
    if items.len() > 0 && k > 0 {
        lemma_recent_entries_are_few(items.drop_last(), (k - 1) as nat);
        lemma_recent_entries_are_few(items.drop_last(), k);
    }
}

/// What a snapshot quotes of one message is at most `MAX_ENTRY_CHARS`
/// characters, and is the start of the message's text.
pub proof fn lemma_message_text_is_bounded(content: Seq<ContentItem>)
    ensures
        message_text(content).len() <= MAX_ENTRY_CHARS,
        message_text(content).is_prefix_of(joined_text(content)),
{
}


/// Whether a history item gives a line in a snapshot.
pub open spec fn has_line(x: HistoryItem) -> bool {
    entry_of(x) is Some
}

/// The lines of all history items that give one, oldest first.
pub open spec fn all_lines(h: Seq<HistoryItem>) -> Seq<Seq<char>> {
    h.filter(|x: HistoryItem| has_line(x)).map_values(|x: HistoryItem| entry_of(x)->0)
}

/// The recent entries of a snapshot are exactly the last `k` lines of the
/// history (all of them when there are fewer): items that give no line
/// (reasoning, tool calls, messages without text) do not count toward `k`.
pub proof fn lemma_recent_entries_are_last_lines(h: Seq<HistoryItem>, k: nat)
    ensures
        ({
            let lines = all_lines(h);
            let m = if k < lines.len() {
                k as int
            } else {
                lines.len() as int
            };
            recent_entries(h, k) == lines.subrange(lines.len() - m, lines.len() as int)
        }),
    decreases h.len(),
{
    let pred = |x: HistoryItem| has_line(x);
    let f = |x: HistoryItem| entry_of(x)->0;
    let lines = all_lines(h);
    if h.len() == 0 {
        reveal(Seq::filter);
        assert(lines =~= Seq::<Seq<char>>::empty());
        assert(lines.subrange(0, 0) =~= Seq::<Seq<char>>::empty());
    } else {
        let rest = h.drop_last();
        let x = h.last();
        assert(h =~= rest.push(x));
        rest.lemma_filter_push(x, pred);
        let before = all_lines(rest);
        if k == 0 {
            assert(lines.subrange(lines.len() as int, lines.len() as int)
                =~= Seq::<Seq<char>>::empty());
        } else if has_line(x) {
            lemma_recent_entries_are_last_lines(rest, (k - 1) as nat);
            assert(rest.push(x).filter(pred) == rest.filter(pred).push(x));
            assert(lines =~= before.push(entry_of(x)->0));
            let m1 = if ((k - 1) as nat) < before.len() {
                (k - 1) as int
            } else {
                before.len() as int
            };
            assert(lines.subrange(lines.len() - (m1 + 1), lines.len() as int) =~= before.subrange(
                before.len() - m1,
                before.len() as int,
            ).push(entry_of(x)->0));
        } else {
            lemma_recent_entries_are_last_lines(rest, k);
            assert(rest.push(x).filter(pred) == rest.filter(pred));
            assert(lines =~= before);
        }
    }
}

/// A history item that gives no line leaves the recent entries as they
/// are, however many of them are asked for.
pub proof fn lemma_lineless_item_does_not_count(h: Seq<HistoryItem>, x: HistoryItem, k: nat)
    requires
        entry_of(x) is None,
    ensures
        recent_entries(h.push(x), k) == recent_entries(h, k),
{
    let g = h.push(x);
    assert(g.drop_last() =~= h);
    assert(g.last() == x);
}

/// A snapshot quotes `min(MAX_RECENT_ENTRIES, n)` entries, where `n` is the
/// number of history items that give a line.
pub proof fn lemma_snapshot_entry_count(h: Seq<HistoryItem>)
    ensures
        recent_entries(h, MAX_RECENT_ENTRIES as nat).len() == if all_lines(h).len()
            < MAX_RECENT_ENTRIES {
            all_lines(h).len()
        } else {
            MAX_RECENT_ENTRIES as nat
        },
{
    lemma_recent_entries_are_last_lines(h, MAX_RECENT_ENTRIES as nat);
}


/// The joined text of a content list is that of its first part followed by
/// that of its second part.
pub proof fn lemma_joined_text_concatenates(a: Seq<ContentItem>, b: Seq<ContentItem>)
    ensures
        joined_text(a + b) == joined_text(a) + joined_text(b),
    decreases b.len(),
{
    if b.len() == 0 {
        assert(a + b =~= a);
        assert(joined_text(a) + Seq::<char>::empty() =~= joined_text(a));
    } else {
        lemma_joined_text_concatenates(a, b.drop_last());
        assert((a + b).drop_last() =~= a + b.drop_last());
        assert((a + b).last() == b.last());
    }
}

/// A single input- or output-text part contributes its whole text; a part
/// without text contributes nothing.
pub proof fn lemma_joined_text_of_one_part(c: ContentItem)
    ensures
        joined_text(seq![c]) == match c {
            ContentItem::InputText { text } => text@,
            ContentItem::OutputText { text } => text@,
            ContentItem::NonText => Seq::<char>::empty(),
        },
{
    let one = seq![c];
    assert(one.drop_last() =~= Seq::<ContentItem>::empty());
    assert(one.last() == c);
    assert(joined_text(one.drop_last()) == Seq::<char>::empty());
    assert(Seq::<char>::empty() + content_text(c) =~= content_text(c));
}

/// The line of a history item: a message with text gives its role, ": " and
/// the start of its text, `MAX_ENTRY_CHARS` characters long or all of it;
/// a message without text gives none; a tool result with text gives
/// "tool result: " and the start of its text, cut the same way; anything
/// else gives none.
pub proof fn lemma_entry_shape(item: HistoryItem)
    ensures
        item matches HistoryItem::Message { role, content } ==> {
            let text = joined_text(content@);
            if text.len() == 0 {
                entry_of(item) is None
            } else {
                entry_of(item) matches Some(e) && exists|t: Seq<char>|
                    #![trigger t.is_prefix_of(text)]
                    e == role@ + ": "@ + t && t.is_prefix_of(text) && t.len() == if text.len()
                        < MAX_ENTRY_CHARS {
                        text.len()
                    } else {
                        MAX_ENTRY_CHARS as nat
                    }
            }
        },
        item matches HistoryItem::ToolResult { text: Some(t) } ==> (entry_of(item) matches Some(
            e,
        ) && exists|q: Seq<char>|
            #![trigger q.is_prefix_of(t@)]
            e == "tool result: "@ + q && q.is_prefix_of(t@) && q.len() == if t@.len()
                < MAX_ENTRY_CHARS {
                t@.len()
            } else {
                MAX_ENTRY_CHARS as nat
            }),
        item matches HistoryItem::ToolResult { text: None } ==> entry_of(item) is None,
        item is Other ==> entry_of(item) is None,
{
    match item {
        HistoryItem::Message { role, content } => {
            lemma_take_chars_is_prefix(joined_text(content@), MAX_ENTRY_CHARS as nat);
            let text = joined_text(content@);
            let t = take_chars_spec(text, MAX_ENTRY_CHARS as nat);
            assert(t.is_prefix_of(text));
        },
        HistoryItem::ToolResult { text } => match text {
            Some(t) => {
                lemma_take_chars_is_prefix(t@, MAX_ENTRY_CHARS as nat);
                let q = take_chars_spec(t@, MAX_ENTRY_CHARS as nat);
                assert(q.is_prefix_of(t@));
            },
            None => {},
        },
        HistoryItem::Other => {},
    }
}

/// Joining lines distributes over their concatenation, and a single line
/// is followed by one line break.
pub proof fn lemma_join_lines_concatenates(a: Seq<Seq<char>>, b: Seq<Seq<char>>, l: Seq<char>)
    ensures
        join_lines(a + b) == join_lines(a) + join_lines(b),
        join_lines(seq![l]) == l + "\n"@,
    decreases b.len(),
{
    if b.len() == 0 {
        assert(a + b =~= a);
        assert(join_lines(a) + Seq::<char>::empty() =~= join_lines(a));
    } else {
        lemma_join_lines_concatenates(a, b.drop_last(), l);
        assert((a + b).drop_last() =~= a + b.drop_last());
        assert((a + b).last() == b.last());
    }
    let one = seq![l];
    assert(one.drop_last() =~= Seq::<Seq<char>>::empty());
    assert(one.last() == l);
    assert(join_lines(one.drop_last()) == Seq::<char>::empty());
    assert(Seq::<char>::empty() + l =~= l);
}

} // verus!
