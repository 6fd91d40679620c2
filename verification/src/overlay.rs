//! Panels on top of the workspace: the prompts of a snippet, the confirmation of
//! a paste of several lines, and the command palette.
use vstd::prelude::*;

use crate::lists;
use crate::messages::{Atom, MessageId, Text, TextView};
use crate::palette::{
    AutocompleteSource, CommandPaletteCandidate, HighlightField, PaletteAction, PaletteCategory,
    SearchStatus, TextHighlight,
};
use crate::presets;
use crate::text;
use crate::ui;
use crate::ui::{ButtonView, Emphasis, Icon, Tone};

verus! {

#[derive(Clone, Copy, Debug, PartialEq, Eq, Structural)]
pub enum OverlayAction {
    RunSnippet,
    CancelSnippet,
    ConfirmPaste,
    CancelPaste,
}

/// A snippet that waits for the values of its blanks.
#[derive(Debug)]
pub struct SnippetPrompts {
    pub command: String,
    pub fields: Vec<String>,
}

#[derive(Debug)]
pub struct SnippetPromptsView {
    pub title: &'static str,
    pub preview: String,
    pub buttons: Vec<ButtonView<OverlayAction>>,
    pub fields: Vec<String>,
}

/// How many characters of a command and of a pasted line are shown.
pub const COMMAND_PREVIEW: usize = 120;

pub const PASTE_PREVIEW: usize = 80;

/// The first line of a text, cut to a number of characters.
pub open spec fn preview(content: Seq<char>, limit: int) -> Seq<char> {
    text::clipped(text::first_line(content), limit)
}

pub open spec fn snippet_buttons() -> Seq<ButtonView<OverlayAction>> {
    seq![
        ui::plain_button(
            "snippet-prompts-run",
            0,
            Text::Message(MessageId::CommonRun),
            None,
            Emphasis::Primary,
            OverlayAction::RunSnippet,
        ),
        ui::plain_button(
            "snippet-prompts-cancel",
            0,
            Text::Message(MessageId::CommonCancel),
            None,
            Emphasis::Plain,
            OverlayAction::CancelSnippet,
        ),
    ]
}

/// The panel that asks for the values of a snippet's blanks.
pub fn snippet_prompts_panel(prompts: &Option<SnippetPrompts>) -> (r: Option<SnippetPromptsView>)
    ensures
        match *prompts {
            None => r is None,
            Some(p) => r matches Some(v) && {
                &&& v.title == "Snippet prompts"
                &&& v.preview@ == "Command: "@ + preview(p.command@, COMMAND_PREVIEW as int)
                &&& v.buttons@ == snippet_buttons()
                &&& v.fields@ == p.fields@
            },
        },
{
    let prompts = match prompts {
        Some(prompts) => prompts,
        None => {
            return None;
        },
    };
    let line: String = text::line_preview(prompts.command.as_str(), COMMAND_PREVIEW);
    let mut buttons: Vec<ButtonView<OverlayAction>> = Vec::new();
    buttons.push(
        ui::button(
            "snippet-prompts-run",
            0,
            Text::Message(MessageId::CommonRun),
            None,
            Emphasis::Primary,
            OverlayAction::RunSnippet,
        ),
    );
    buttons.push(
        ui::button(
            "snippet-prompts-cancel",
            0,
            Text::Message(MessageId::CommonCancel),
            None,
            Emphasis::Plain,
            OverlayAction::CancelSnippet,
        ),
    );
    assert(buttons@ =~= snippet_buttons());
    Some(
        SnippetPromptsView {
            title: "Snippet prompts",
            preview: text::joined("Command: ", line.as_str()),
            buttons,
            fields: presets::duplicate_list(&prompts.fields),
        },
    )
}

#[derive(Debug)]
pub struct PasteConfirmationView {
    pub question: String,
    pub first_line: String,
    pub buttons: Vec<ButtonView<OverlayAction>>,
}

/// How many lines a text has.
pub open spec fn line_count(content: Seq<char>) -> int {
    text::occurrences(content, '\n') + 1
}

pub open spec fn paste_buttons() -> Seq<ButtonView<OverlayAction>> {
    seq![
        ui::plain_button(
            "paste-confirm",
            0,
            Text::Literal("Paste"),
            None,
            Emphasis::Primary,
            OverlayAction::ConfirmPaste,
        ),
        ui::plain_button(
            "paste-cancel",
            0,
            Text::Message(MessageId::CommonCancel),
            None,
            Emphasis::Plain,
            OverlayAction::CancelPaste,
        ),
    ]
}

/// The question whether to paste several lines.
pub fn paste_confirmation(pending: &Option<String>) -> (r: Option<PasteConfirmationView>)
    requires
        pending matches Some(content) ==> line_count(content@) <= usize::MAX,
    ensures
        match *pending {
            None => r is None,
            Some(content) => r matches Some(v) && {
                &&& v.question@ == "Paste "@ + text::decimal(line_count(content@) as nat)
                    + " lines into the active pane?"@
                &&& v.first_line@ == "First line: "@ + preview(content@, PASTE_PREVIEW as int)
                    + "…"@
                &&& v.buttons@ == paste_buttons()
            },
        },
{
    let content = match pending {
        Some(content) => content,
        None => {
            return None;
        },
    };
    let count: usize = text::count_char(content.as_str(), '\n');
    let lines: u64 = (count + 1) as u64;
    let number: String = text::decimal_text(lines);
    let asked: String = text::joined("Paste ", number.as_str());
    let line: String = text::line_preview(content.as_str(), PASTE_PREVIEW);
    let first: String = text::joined("First line: ", line.as_str());
    let mut buttons: Vec<ButtonView<OverlayAction>> = Vec::new();
    buttons.push(
        ui::button(
            "paste-confirm",
            0,
            Text::Literal("Paste"),
            None,
            Emphasis::Primary,
            OverlayAction::ConfirmPaste,
        ),
    );
    buttons.push(
        ui::button(
            "paste-cancel",
            0,
            Text::Message(MessageId::CommonCancel),
            None,
            Emphasis::Plain,
            OverlayAction::CancelPaste,
        ),
    );
    assert(buttons@ =~= paste_buttons());
    Some(
        PasteConfirmationView {
            question: text::joined(asked.as_str(), " lines into the active pane?"),
            first_line: text::joined(first.as_str(), "…"),
            buttons,
        },
    )
}

pub open spec fn tone_of_source(source: AutocompleteSource) -> Tone {
    match source {
        AutocompleteSource::Path | AutocompleteSource::Argument => Tone::Warning,
        AutocompleteSource::Context | AutocompleteSource::History => Tone::Accent,
        AutocompleteSource::Snippet => Tone::Success,
        AutocompleteSource::Builtin => Tone::Slate,
    }
}

pub fn source_tone(source: AutocompleteSource) -> (r: Tone)
    ensures
        r == tone_of_source(source),
{
    match source {
        AutocompleteSource::Path | AutocompleteSource::Argument => Tone::Warning,
        AutocompleteSource::Context | AutocompleteSource::History => Tone::Accent,
        AutocompleteSource::Snippet => Tone::Success,
        AutocompleteSource::Builtin => Tone::Slate,
    }
}

pub open spec fn icon_of_category(category: PaletteCategory) -> Icon {
    match category {
        PaletteCategory::Attention => Icon::TriangleAlert,
        PaletteCategory::Sessions | PaletteCategory::Presets | PaletteCategory::Commands =>
            Icon::SquareTerminal,
        PaletteCategory::Projects => Icon::FolderOpen,
        PaletteCategory::Groups => Icon::Folder,
        PaletteCategory::Actions => Icon::Plus,
        PaletteCategory::Archive => Icon::Inbox,
    }
}

pub fn category_icon(category: PaletteCategory) -> (r: Icon)
    ensures
        r == icon_of_category(category),
{
    match category {
        PaletteCategory::Attention => Icon::TriangleAlert,
        PaletteCategory::Sessions | PaletteCategory::Presets | PaletteCategory::Commands =>
            Icon::SquareTerminal,
        PaletteCategory::Projects => Icon::FolderOpen,
        PaletteCategory::Groups => Icon::Folder,
        PaletteCategory::Actions => Icon::Plus,
        PaletteCategory::Archive => Icon::Inbox,
    }
}

pub open spec fn tone_of_status(status: SearchStatus) -> Tone {
    match status {
        SearchStatus::Attention => Tone::Warning,
        SearchStatus::Busy | SearchStatus::Running => Tone::Accent,
        SearchStatus::Done => Tone::Success,
        SearchStatus::Idle => Tone::Slate,
        SearchStatus::Unavailable => Tone::Danger,
        SearchStatus::Unknown => Tone::Muted,
    }
}

pub fn status_tone(status: SearchStatus) -> (r: Tone)
    ensures
        r == tone_of_status(status),
{
    match status {
        SearchStatus::Attention => Tone::Warning,
        SearchStatus::Busy | SearchStatus::Running => Tone::Accent,
        SearchStatus::Done => Tone::Success,
        SearchStatus::Idle => Tone::Slate,
        SearchStatus::Unavailable => Tone::Danger,
        SearchStatus::Unknown => Tone::Muted,
    }
}

/// A stretch of a title, in bytes.
#[derive(Clone, Copy, Debug, PartialEq, Eq, Structural)]
pub struct TitlePiece {
    pub start: usize,
    pub end: usize,
    pub highlighted: bool,
}

/// A stretch of a title as it is drawn.
#[derive(Debug, PartialEq, Eq)]
pub struct TitleSegment {
    pub text: String,
    pub highlighted: bool,
}

/// A highlight of a title counts where it is not empty and cuts no character.
pub open spec fn marks_title(bytes: Seq<u8>) -> spec_fn(TextHighlight) -> bool {
    |h: TextHighlight|
        {
            &&& h.field == HighlightField::Title
            &&& h.start < h.end
            &&& h.end <= bytes.len()
            &&& vstd::utf8::is_char_boundary(bytes, h.start as int)
            &&& vstd::utf8::is_char_boundary(bytes, h.end as int)
        }
}

pub open spec fn starts_before() -> spec_fn(TextHighlight, TextHighlight) -> bool {
    |a: TextHighlight, b: TextHighlight|
        a.start < b.start || (a.start == b.start && a.end < b.end)
}

/// The highlights that count, from left to right.
pub open spec fn title_ranges(bytes: Seq<u8>, highlights: Seq<TextHighlight>) -> Seq<
    TextHighlight,
> {
    lists::stable_sort(lists::kept(highlights, marks_title(bytes)), starts_before())
}

/// The part of a title from `cursor` on, cut at the highlights; one that
/// overlaps an earlier one is left out.
pub open spec fn pieces_from(length: int, ranges: Seq<TextHighlight>, cursor: int) -> Seq<
    TitlePiece,
>
    decreases ranges.len(),
{
    if ranges.len() == 0 {
        lists::optional(
            cursor < length,
            TitlePiece { start: cursor as usize, end: length as usize, highlighted: false },
        )
    } else {
        let range = ranges[0];
        if range.start < cursor {
            pieces_from(length, ranges.drop_first(), cursor)
        } else {
            lists::optional(
                cursor < range.start,
                TitlePiece { start: cursor as usize, end: range.start, highlighted: false },
            ) + seq![TitlePiece { start: range.start, end: range.end, highlighted: true }]
                + pieces_from(length, ranges.drop_first(), range.end as int)
        }
    }
}

/// The pieces of a title; an empty title has one, which is empty.
pub open spec fn title_pieces(bytes: Seq<u8>, highlights: Seq<TextHighlight>) -> Seq<TitlePiece> {
    let pieces = pieces_from(bytes.len() as int, title_ranges(bytes, highlights), 0);
    if pieces.len() == 0 {
        seq![TitlePiece { start: 0, end: bytes.len() as usize, highlighted: false }]
    } else {
        pieces
    }
}

/// The bytes of pieces, one after the other.
pub open spec fn piece_bytes(bytes: Seq<u8>, pieces: Seq<TitlePiece>) -> Seq<u8>
    decreases pieces.len(),
{
    if pieces.len() == 0 {
        Seq::empty()
    } else {
        bytes.subrange(pieces[0].start as int, pieces[0].end as int) + piece_bytes(
            bytes,
            pieces.drop_first(),
        )
    }
}

proof fn lemma_piece_bytes_add(bytes: Seq<u8>, a: Seq<TitlePiece>, b: Seq<TitlePiece>)
    ensures
        piece_bytes(bytes, a + b) == piece_bytes(bytes, a) + piece_bytes(bytes, b),
    decreases a.len(),
{
    if a.len() == 0 {
        assert(a + b =~= b);
        assert(piece_bytes(bytes, b) =~= piece_bytes(bytes, a) + piece_bytes(bytes, b));
    } else {
        assert((a + b).drop_first() =~= a.drop_first() + b);
        lemma_piece_bytes_add(bytes, a.drop_first(), b);
        let first = bytes.subrange(a[0].start as int, a[0].end as int);
        assert(first + (piece_bytes(bytes, a.drop_first()) + piece_bytes(bytes, b)) =~= first
            + piece_bytes(bytes, a.drop_first()) + piece_bytes(bytes, b));
    }
}

proof fn lemma_one_piece(bytes: Seq<u8>, piece: TitlePiece)
    requires
        piece.start <= piece.end <= bytes.len(),
    ensures
        piece_bytes(bytes, seq![piece]) == bytes.subrange(piece.start as int, piece.end as int),
{
    let one = seq![piece];
    assert(one.drop_first() =~= Seq::empty());
    assert(piece_bytes(bytes, one.drop_first()) =~= Seq::empty());
    assert(piece_bytes(bytes, one) =~= bytes.subrange(piece.start as int, piece.end as int));
}

proof fn lemma_pieces_cover(bytes: Seq<u8>, ranges: Seq<TextHighlight>, cursor: int)
    requires
        bytes.len() <= usize::MAX,
        0 <= cursor <= bytes.len(),
        forall|i: int|
            0 <= i < ranges.len() ==> (#[trigger] ranges[i]).start < ranges[i].end
                <= bytes.len(),
    ensures
        piece_bytes(bytes, pieces_from(bytes.len() as int, ranges, cursor)) == bytes.subrange(
            cursor,
            bytes.len() as int,
        ),
    decreases ranges.len(),
{
    let length = bytes.len() as int;
    if ranges.len() == 0 {
        let last = TitlePiece {
            start: cursor as usize,
            end: length as usize,
            highlighted: false,
        };
        if cursor < length {
            lemma_one_piece(bytes, last);
        } else {
            assert(bytes.subrange(cursor, length) =~= Seq::empty());
        }
    } else {
        let range = ranges[0];
        let rest = ranges.drop_first();
        assert forall|i: int| 0 <= i < rest.len() implies (#[trigger] rest[i]).start < rest[i].end
            <= bytes.len() by {
            assert(rest[i] == ranges[i + 1]);
        }
        if range.start < cursor {
            lemma_pieces_cover(bytes, rest, cursor);
        } else {
            lemma_pieces_cover(bytes, rest, range.end as int);
            let plain = TitlePiece {
                start: cursor as usize,
                end: range.start,
                highlighted: false,
            };
            let strong = TitlePiece { start: range.start, end: range.end, highlighted: true };
            let head = lists::optional(cursor < range.start, plain);
            let tail = pieces_from(length, rest, range.end as int);
            lemma_piece_bytes_add(bytes, head + seq![strong], tail);
            lemma_piece_bytes_add(bytes, head, seq![strong]);
            lemma_one_piece(bytes, strong);
            if cursor < range.start {
                lemma_one_piece(bytes, plain);
            } else {
                assert(bytes.subrange(cursor, range.start as int) =~= Seq::empty());
            }
            assert(bytes.subrange(cursor, range.start as int) + bytes.subrange(
                range.start as int,
                range.end as int,
            ) + bytes.subrange(range.end as int, length) =~= bytes.subrange(cursor, length));
        }
    }
}

proof fn lemma_sorted_members(s: Seq<TextHighlight>, i: int)
    requires
        0 <= i < lists::stable_sort(s, starts_before()).len(),
    ensures
        s.contains(lists::stable_sort(s, starts_before())[i]),
{
    broadcast use vstd::seq_lib::group_to_multiset_ensures;

    lists::law_stable_sort(s, starts_before());
    let sorted = lists::stable_sort(s, starts_before());
    assert(sorted.contains(sorted[i]));
    assert(sorted.to_multiset().count(sorted[i]) > 0);
    assert(s.to_multiset().count(sorted[i]) > 0);
}

proof fn lemma_title_ranges(bytes: Seq<u8>, highlights: Seq<TextHighlight>)
    ensures
        forall|i: int|
            0 <= i < title_ranges(bytes, highlights).len() ==> marks_title(bytes)(
                #[trigger] title_ranges(bytes, highlights)[i],
            ),
{
    let kept = lists::kept(highlights, marks_title(bytes));
    assert forall|i: int| 0 <= i < title_ranges(bytes, highlights).len() implies marks_title(
        bytes,
    )(#[trigger] title_ranges(bytes, highlights)[i]) by {
        lemma_sorted_members(kept, i);
        lists::lemma_kept_members(highlights, marks_title(bytes), title_ranges(bytes, highlights)[i]);
    }
}

/// Nothing of a title is lost, doubled or moved by highlighting it, whatever the
/// highlights are.
pub proof fn law_highlighting_keeps_the_title(title: Seq<char>, highlights: Seq<TextHighlight>)
    requires
        vstd::utf8::encode_utf8(title).len() <= usize::MAX,
    ensures
        ({
            let bytes = vstd::utf8::encode_utf8(title);
            piece_bytes(bytes, title_pieces(bytes, highlights)) == bytes
        }),
{
    let bytes = vstd::utf8::encode_utf8(title);
    let ranges = title_ranges(bytes, highlights);
    lemma_title_ranges(bytes, highlights);
    assert forall|i: int| 0 <= i < ranges.len() implies (#[trigger] ranges[i]).start
        < ranges[i].end <= bytes.len() by {
        assert(marks_title(bytes)(ranges[i]));
    }
    lemma_pieces_cover(bytes, ranges, 0);
    assert(bytes.subrange(0, bytes.len() as int) =~= bytes);
    let pieces = pieces_from(bytes.len() as int, ranges, 0);
    if pieces.len() == 0 {
        lemma_one_piece(
            bytes,
            TitlePiece { start: 0, end: bytes.len() as usize, highlighted: false },
        );
    }
}

/// The segments are the given pieces of the title.
pub open spec fn are_pieces(segments: Seq<TitleSegment>, bytes: Seq<u8>, pieces: Seq<TitlePiece>) -> bool {
    &&& segments.len() == pieces.len()
    &&& forall|i: int|
        0 <= i < segments.len() ==> {
            &&& vstd::utf8::encode_utf8((#[trigger] segments[i]).text@) == bytes.subrange(
                pieces[i].start as int,
                pieces[i].end as int,
            )
            &&& segments[i].highlighted == pieces[i].highlighted
        }
}

fn byte_slice(s: &str, start: usize, end: usize) -> (r: String)
    requires
        start <= end,
        vstd::utf8::is_char_boundary(vstd::utf8::encode_utf8(s@), start as int),
        vstd::utf8::is_char_boundary(vstd::utf8::encode_utf8(s@), end as int),
        end <= vstd::utf8::encode_utf8(s@).len(),
    ensures
        vstd::utf8::encode_utf8(r@) == vstd::utf8::encode_utf8(s@).subrange(
            start as int,
            end as int,
        ),
{
    let ghost bytes = vstd::utf8::encode_utf8(s@);
    proof {
        vstd::utf8::encode_utf8_valid_utf8(s@);
        vstd::utf8::valid_utf8_split(bytes, end as int);
    }
    let (front, _back) = s.split_at(end);
    let ghost part = bytes.subrange(0, end as int);
    proof {
        assert(vstd::utf8::valid_utf8(part));
        if start == end {
            vstd::utf8::is_char_boundary_start_end_of_seq(part);
        } else {
            vstd::utf8::is_char_boundary_iff_not_is_continuation_byte(bytes, start as int);
            vstd::utf8::is_char_boundary_iff_not_is_continuation_byte(part, start as int);
            assert(part[start as int] == bytes[start as int]);
        }
    }
    let (_skipped, middle) = front.split_at(start);
    assert(part.subrange(start as int, part.len() as int) =~= bytes.subrange(
        start as int,
        end as int,
    ));
    middle.to_owned()
}

fn counted_ranges(title: &str, highlights: &Vec<TextHighlight>) -> (r: Vec<TextHighlight>)
    ensures
        r@ == title_ranges(vstd::utf8::encode_utf8(title@), highlights@),
{
    let ghost bytes = vstd::utf8::encode_utf8(title@);
    let ghost wanted = marks_title(bytes);
    let length: usize = title.as_bytes().len();
    let mut list: Vec<TextHighlight> = Vec::new();
    let mut i: usize = 0;
    assert(highlights@.take(0) =~= Seq::empty());
    while i < highlights.len()
        invariant
            i <= highlights@.len(),
            bytes == vstd::utf8::encode_utf8(title@),
            wanted == marks_title(bytes),
            length == bytes.len(),
            list@ == lists::kept(highlights@.take(i as int), wanted),
        decreases highlights@.len() - i,
    {
        let h: TextHighlight = highlights[i];
        proof {
            lists::lemma_kept_step(highlights@, wanted, i as int);
        }
        if h.field == HighlightField::Title && h.start < h.end && h.end <= length
            && title.is_char_boundary(h.start) && title.is_char_boundary(h.end) {
            list.push(h);
        }
        i += 1;
    }
    assert(highlights@.take(highlights@.len() as int) =~= highlights@);
    let earlier = |a: &TextHighlight, b: &TextHighlight| -> (x: bool)
        ensures
            x == starts_before()(*a, *b),
        { a.start < b.start || (a.start == b.start && a.end < b.end) };
    lists::sort_list(list, earlier, Ghost(starts_before()))
}

/// A title in pieces, so that what matched can be drawn with emphasis.
pub fn palette_title(title: &str, highlights: &Vec<TextHighlight>) -> (r: Vec<TitleSegment>)
    ensures
        are_pieces(
            r@,
            vstd::utf8::encode_utf8(title@),
            title_pieces(vstd::utf8::encode_utf8(title@), highlights@),
        ),
{
    let ghost bytes = vstd::utf8::encode_utf8(title@);
    let ranges: Vec<TextHighlight> = counted_ranges(title, highlights);
    let length: usize = title.as_bytes().len();
    let mut r: Vec<TitleSegment> = Vec::new();
    let mut cursor: usize = 0;
    let mut i: usize = 0;
    let ghost mut done: Seq<TitlePiece> = Seq::empty();
    proof {
        lemma_title_ranges(bytes, highlights@);
        vstd::utf8::encode_utf8_valid_utf8(title@);
        vstd::utf8::is_char_boundary_start_end_of_seq(bytes);
        assert(ranges@.skip(0) =~= ranges@);
        assert(done + pieces_from(length as int, ranges@, 0) =~= pieces_from(
            length as int,
            ranges@,
            0,
        ));
    }
    while i < ranges.len()
        invariant
            i <= ranges@.len(),
            bytes == vstd::utf8::encode_utf8(title@),
            length == bytes.len(),
            cursor <= length,
            vstd::utf8::is_char_boundary(bytes, cursor as int),
            ranges@ == title_ranges(bytes, highlights@),
            forall|k: int| 0 <= k < ranges@.len() ==> marks_title(bytes)(#[trigger] ranges@[k]),
            are_pieces(r@, bytes, done),
            pieces_from(length as int, ranges@, 0) == done + pieces_from(
                length as int,
                ranges@.skip(i as int),
                cursor as int,
            ),
        decreases ranges@.len() - i,
    {
        let range: TextHighlight = ranges[i];
        let ghost left = ranges@.skip(i as int);
        proof {
            assert(left[0] == range);
            assert(left.drop_first() =~= ranges@.skip(i + 1));
            assert(marks_title(bytes)(ranges@[i as int]));
        }
        if range.start >= cursor {
            let ghost before = done;
            if cursor < range.start {
                r.push(
                    TitleSegment {
                        text: byte_slice(title, cursor, range.start),
                        highlighted: false,
                    },
                );
                proof {
                    done = done.push(
                        TitlePiece { start: cursor, end: range.start, highlighted: false },
                    );
                }
            }
            r.push(
                TitleSegment { text: byte_slice(title, range.start, range.end), highlighted: true },
            );
            proof {
                done = done.push(
                    TitlePiece { start: range.start, end: range.end, highlighted: true },
                );
                assert(before + pieces_from(length as int, left, cursor as int) =~= done
                    + pieces_from(length as int, ranges@.skip(i + 1), range.end as int));
            }
            cursor = range.end;
        }
        i += 1;
    }
    proof {
        assert(ranges@.skip(i as int) =~= Seq::empty());
    }
    let ghost before = done;
    if cursor < length {
        proof {
            vstd::utf8::is_char_boundary_start_end_of_seq(bytes);
            done = done.push(
                TitlePiece { start: cursor, end: length, highlighted: false },
            );
        }
        r.push(TitleSegment { text: byte_slice(title, cursor, length), highlighted: false });
    }
    assert(done =~= pieces_from(length as int, ranges@, 0));
    if r.len() == 0 {
        let whole: TitleSegment = TitleSegment { text: title.to_owned(), highlighted: false };
        r.push(whole);
        assert(bytes.subrange(0, bytes.len() as int) =~= bytes);
    }
    r
}

/// What a badge of a result says.
#[derive(Clone, Copy, Debug, PartialEq, Eq, Structural)]
pub enum BadgeLabel {
    Pinned,
    Status(SearchStatus),
    Source(AutocompleteSource),
}

#[derive(Clone, Copy, Debug, PartialEq, Eq, Structural)]
pub struct Badge {
    pub label: BadgeLabel,
    pub tone: Tone,
}

/// A result as it is drawn. `header` stands above the first of each run of
/// results of one category.
#[derive(Debug)]
pub struct PaletteRow {
    pub header: Option<PaletteCategory>,
    pub selected: bool,
    pub border: Tone,
    pub icon: Icon,
    pub icon_tone: Tone,
    pub title: Vec<TitleSegment>,
    pub detail: Option<Text>,
    pub badges: Vec<Badge>,
}

pub open spec fn says_nothing(content: Text) -> bool {
    content@ matches TextView::Characters(s) && s.len() == 0
}

fn is_empty_text(content: &Text) -> (r: bool)
    ensures
        r == says_nothing(*content),
{
    match content {
        Text::Literal(s) => s.is_empty(),
        Text::Value(s) => s.as_str().is_empty(),
        _ => false,
    }
}

pub open spec fn known_status(status: Option<SearchStatus>) -> Option<SearchStatus> {
    match status {
        Some(SearchStatus::Unknown) => None,
        other => other,
    }
}

pub open spec fn result_badges(candidate: CommandPaletteCandidate) -> Seq<Badge> {
    lists::optional(candidate.pinned, Badge { label: BadgeLabel::Pinned, tone: Tone::Warning })
        + (match known_status(candidate.status) {
        Some(status) => seq![
            Badge { label: BadgeLabel::Status(status), tone: tone_of_status(status) },
        ],
        None => Seq::empty(),
    }) + lists::optional(
        candidate.action == PaletteAction::RunCommand,
        Badge {
            label: BadgeLabel::Source(candidate.source),
            tone: tone_of_source(candidate.source),
        },
    )
}

pub open spec fn row_header(candidates: Seq<CommandPaletteCandidate>, i: int) -> Option<
    PaletteCategory,
> {
    if i == 0 || candidates[i - 1].category != candidates[i].category {
        Some(candidates[i].category)
    } else {
        None
    }
}

/// The row draws the candidate at its place.
pub open spec fn draws(
    row: PaletteRow,
    candidates: Seq<CommandPaletteCandidate>,
    i: int,
    selected: int,
) -> bool {
    let candidate = candidates[i];
    let bytes = vstd::utf8::encode_utf8(candidate.title@);
    &&& row.header == row_header(candidates, i)
    &&& row.selected == (i == selected)
    &&& row.border == if i == selected {
        Tone::Accent
    } else {
        Tone::Border
    }
    &&& row.icon == icon_of_category(candidate.category)
    &&& row.icon_tone == if i == selected {
        Tone::Accent
    } else {
        Tone::Muted
    }
    &&& are_pieces(row.title@, bytes, title_pieces(bytes, candidate.highlights@))
    &&& row.detail == if says_nothing(candidate.detail) {
        None
    } else {
        Some(candidate.detail)
    }
    &&& row.badges@ == result_badges(candidate)
}

fn badges_of(candidate: &CommandPaletteCandidate) -> (r: Vec<Badge>)
    ensures
        r@ == result_badges(*candidate),
{
    let mut r: Vec<Badge> = Vec::new();
    lists::push_if(
        &mut r,
        candidate.pinned,
        Badge { label: BadgeLabel::Pinned, tone: Tone::Warning },
    );
    match candidate.status {
        Some(SearchStatus::Unknown) => {},
        Some(status) => {
            r.push(Badge { label: BadgeLabel::Status(status), tone: status_tone(status) });
        },
        None => {},
    }
    lists::push_if(
        &mut r,
        candidate.action == PaletteAction::RunCommand,
        Badge {
            label: BadgeLabel::Source(candidate.source),
            tone: source_tone(candidate.source),
        },
    );
    assert(r@ =~= result_badges(*candidate));
    r
}

fn palette_row(candidates: &Vec<CommandPaletteCandidate>, i: usize, selected: usize) -> (r:
    PaletteRow)
    requires
        i < candidates@.len(),
    ensures
        draws(r, candidates@, i as int, selected as int),
{
    let candidate = &candidates[i];
    let chosen: bool = i == selected;
    PaletteRow {
        header: if i == 0 || candidates[i - 1].category != candidate.category {
            Some(candidate.category)
        } else {
            None
        },
        selected: chosen,
        border: if chosen {
            Tone::Accent
        } else {
            Tone::Border
        },
        icon: category_icon(candidate.category),
        icon_tone: if chosen {
            Tone::Accent
        } else {
            Tone::Muted
        },
        title: palette_title(candidate.title.as_str(), &candidate.highlights),
        detail: if is_empty_text(&candidate.detail) {
            None
        } else {
            Some(candidate.detail.duplicate())
        },
        badges: badges_of(candidate),
    }
}

/// What the palette is drawn from. `shortcut` names the keys that open it,
/// `failure` says what went wrong with the search.
#[derive(Debug)]
pub struct PaletteScreen {
    pub candidates: Vec<CommandPaletteCandidate>,
    pub selected: usize,
    pub query: String,
    pub searching: bool,
    pub archived_fallback: bool,
    pub failure: Option<Text>,
    pub shortcut: String,
}

/// What stands in place of the results where there are none.
#[derive(Clone, Copy, Debug, PartialEq, Eq, Structural)]
pub struct EmptyPalette {
    pub icon: Icon,
    pub title: MessageId,
    pub detail: MessageId,
}

#[derive(Debug)]
pub struct CommandPaletteView {
    pub title: MessageId,
    pub shortcut: Text,
    pub notices: Vec<Text>,
    pub loading: bool,
    pub rows: Vec<PaletteRow>,
    pub empty: Option<EmptyPalette>,
    pub position: Option<Text>,
}

pub open spec fn palette_notices(screen: PaletteScreen) -> Seq<Text> {
    lists::optional(screen.searching, Text::Message(MessageId::GlobalPaletteSearching))
        + lists::optional(
        screen.archived_fallback,
        Text::Message(MessageId::GlobalPaletteArchivedFallback),
    ) + (match screen.failure {
        Some(message) => seq![message],
        None => Seq::empty(),
    })
}

pub open spec fn empty_palette(screen: PaletteScreen) -> Option<EmptyPalette> {
    if screen.candidates@.len() > 0 {
        None
    } else if screen.query@.len() == 0 {
        Some(
            EmptyPalette {
                icon: Icon::Search,
                title: MessageId::GlobalPaletteEmpty,
                detail: MessageId::GlobalPaletteEmptyDetail,
            },
        )
    } else {
        Some(
            EmptyPalette {
                icon: Icon::Search,
                title: MessageId::GlobalPaletteNoMatch,
                detail: MessageId::GlobalPaletteNoMatchDetail,
            },
        )
    }
}

/// Which result is selected, counted from one, of how many.
pub open spec fn palette_position(screen: PaletteScreen) -> Option<Text> {
    if screen.candidates@.len() == 0 {
        None
    } else {
        Some(
            Text::FilledTwo(
                MessageId::GlobalPalettePosition,
                Atom::Number((screen.selected + 1) as u64),
                Atom::Number(screen.candidates@.len() as u64),
            ),
        )
    }
}

/// The command palette.
pub fn command_palette_view(screen: &PaletteScreen) -> (r: CommandPaletteView)
    requires
        screen.selected < usize::MAX,
    ensures
        r.title == MessageId::GlobalPaletteTitle,
        r.shortcut == Text::Filled(
            MessageId::GlobalPaletteShortcutHint,
            Atom::Value(screen.shortcut),
        ),
        r.notices@ == palette_notices(*screen),
        r.loading == screen.searching,
        r.rows@.len() == screen.candidates@.len(),
        forall|i: int|
            0 <= i < r.rows@.len() ==> draws(
                #[trigger] r.rows@[i],
                screen.candidates@,
                i,
                screen.selected as int,
            ),
        r.empty == empty_palette(*screen),
        r.position == palette_position(*screen),
{
    let mut notices: Vec<Text> = Vec::new();
    lists::push_if(
        &mut notices,
        screen.searching,
        Text::Message(MessageId::GlobalPaletteSearching),
    );
    lists::push_if(
        &mut notices,
        screen.archived_fallback,
        Text::Message(MessageId::GlobalPaletteArchivedFallback),
    );
    match &screen.failure {
        Some(message) => {
            notices.push(message.duplicate());
        },
        None => {},
    }
    assert(notices@ =~= palette_notices(*screen));
    let count: usize = screen.candidates.len();
    let mut rows: Vec<PaletteRow> = Vec::new();
    let mut i: usize = 0;
    while i < count
        invariant
            i <= count,
            count == screen.candidates@.len(),
            rows@.len() == i,
            forall|k: int|
                0 <= k < i ==> draws(
                    #[trigger] rows@[k],
                    screen.candidates@,
                    k,
                    screen.selected as int,
                ),
        decreases count - i,
    {
        rows.push(palette_row(&screen.candidates, i, screen.selected));
        i += 1;
    }
    let nothing_typed: bool = screen.query.as_str().is_empty();
    CommandPaletteView {
        title: MessageId::GlobalPaletteTitle,
        shortcut: Text::Filled(
            MessageId::GlobalPaletteShortcutHint,
            Atom::Value(screen.shortcut.clone()),
        ),
        notices,
        loading: screen.searching,
        rows,
        empty: if count > 0 {
            None
        } else if nothing_typed {
            Some(
                EmptyPalette {
                    icon: Icon::Search,
                    title: MessageId::GlobalPaletteEmpty,
                    detail: MessageId::GlobalPaletteEmptyDetail,
                },
            )
        } else {
            Some(
                EmptyPalette {
                    icon: Icon::Search,
                    title: MessageId::GlobalPaletteNoMatch,
                    detail: MessageId::GlobalPaletteNoMatchDetail,
                },
            )
        },
        position: if count == 0 {
            None
        } else {
            Some(
                Text::FilledTwo(
                    MessageId::GlobalPalettePosition,
                    Atom::Number((screen.selected + 1) as u64),
                    Atom::Number(count as u64),
                ),
            )
        },
    }
}

/// A preview holds no more than its limit, begins the text, and stays in its
/// first line.
pub proof fn law_previews_begin_the_text(content: Seq<char>, limit: int)
    requires
        0 <= limit,
        !content.contains('\n'),
    ensures
        preview(content, limit).len() <= limit,
        text::begins_with(content, preview(content, limit)),
        content.len() <= limit ==> preview(content, limit) == content,
{
    text::law_the_first_line_ends_at_the_first_line_end(content, Seq::empty());
    text::law_clipping_keeps_the_beginning(content, limit);
    assert(content.subrange(0, content.len() as int) =~= content);
}

/// A snippet runs by the first button and is left by the second; a paste
/// likewise.
pub proof fn law_overlays_can_be_left(i: int)
    requires
        0 <= i < 2,
    ensures
        snippet_buttons().len() == 2 && paste_buttons().len() == 2,
        snippet_buttons()[i].action is RunSnippet <==> i == 0,
        snippet_buttons()[i].action is CancelSnippet <==> i == 1,
        paste_buttons()[i].action is ConfirmPaste <==> i == 0,
        paste_buttons()[i].action is CancelPaste <==> i == 1,
        snippet_buttons()[i].emphasis is Primary <==> i == 0,
        paste_buttons()[i].emphasis is Primary <==> i == 0,
        snippet_buttons()[0].label == Text::Message(MessageId::CommonRun),
        snippet_buttons()[1].label == Text::Message(MessageId::CommonCancel),
        paste_buttons()[1].label == Text::Message(MessageId::CommonCancel),
{
}

/// A paste counts one line more than it has line ends.
pub proof fn law_lines_are_counted_by_their_ends(a: Seq<char>, b: Seq<char>)
    requires
        !b.contains('\n'),
    ensures
        line_count(b) == 1,
        line_count(a + seq!['\n'] + b) == line_count(a) + 1,
{
    text::law_occurrences_add_up(Seq::empty(), b, '\n');
    text::law_occurrences_add_up(a + seq!['\n'], b, '\n');
    text::law_occurrences_add_up(a, seq!['\n'], '\n');
}

/// Each source of a suggestion has its tone.
pub proof fn law_sources_have_their_tone(source: AutocompleteSource)
    ensures
        tone_of_source(source) is Warning <==> (source is Path || source is Argument),
        tone_of_source(source) is Accent <==> (source is Context || source is History),
        tone_of_source(source) is Success <==> source is Snippet,
        tone_of_source(source) is Slate <==> source is Builtin,
{
}

/// Each category has its icon.
pub proof fn law_categories_have_their_icon(category: PaletteCategory)
    ensures
        icon_of_category(category) is TriangleAlert <==> category is Attention,
        icon_of_category(category) is FolderOpen <==> category is Projects,
        icon_of_category(category) is Folder <==> category is Groups,
        icon_of_category(category) is Plus <==> category is Actions,
        icon_of_category(category) is Inbox <==> category is Archive,
        icon_of_category(category) is SquareTerminal <==> (category is Sessions || category
            is Presets || category is Commands),
{
}

/// Each status has its tone: what needs attention warns, what cannot be reached
/// alarms, what is done looks well.
pub proof fn law_statuses_have_their_tone(status: SearchStatus)
    ensures
        tone_of_status(status) is Warning <==> status is Attention,
        tone_of_status(status) is Danger <==> status is Unavailable,
        tone_of_status(status) is Success <==> status is Done,
        tone_of_status(status) is Slate <==> status is Idle,
        tone_of_status(status) is Muted <==> status is Unknown,
        tone_of_status(status) is Accent <==> (status is Busy || status is Running),
{
}

/// A range is highlighted only where it is the title's, lies within it and
/// stands on whole characters.
pub proof fn law_only_whole_parts_of_the_title_are_marked(bytes: Seq<u8>, h: TextHighlight)
    ensures
        marks_title(bytes)(h) <==> h.field is Title && h.start < h.end && h.end <= bytes.len()
            && vstd::utf8::is_char_boundary(bytes, h.start as int) && vstd::utf8::is_char_boundary(
            bytes,
            h.end as int,
        ),
{
}

/// What is highlighted is one of the ranges, in full.
proof fn lemma_highlighted_pieces_are_ranges(
    length: int,
    ranges: Seq<TextHighlight>,
    cursor: int,
    i: int,
)
    requires
        0 <= i < pieces_from(length, ranges, cursor).len(),
    ensures
        pieces_from(length, ranges, cursor)[i].highlighted ==> exists|k: int|
            0 <= k < ranges.len() && (#[trigger] ranges[k]).start == pieces_from(
                length,
                ranges,
                cursor,
            )[i].start && ranges[k].end == pieces_from(length, ranges, cursor)[i].end,
    decreases ranges.len(),
{
    if ranges.len() > 0 {
        let range = ranges[0];
        let rest = ranges.drop_first();
        let all = pieces_from(length, ranges, cursor);
        if range.start < cursor {
            lemma_highlighted_pieces_are_ranges(length, rest, cursor, i);
            if all[i].highlighted {
                let k = choose|k: int|
                    0 <= k < rest.len() && (#[trigger] rest[k]).start == all[i].start && rest[k].end
                        == all[i].end;
                assert(ranges[k + 1] == rest[k]);
            }
        } else {
            let front: int = if cursor < range.start {
                2
            } else {
                1
            };
            let tail = pieces_from(length, rest, range.end as int);
            if i >= front {
                assert(all[i] == tail[i - front]);
                lemma_highlighted_pieces_are_ranges(length, rest, range.end as int, i - front);
                if all[i].highlighted {
                    let k = choose|k: int|
                        0 <= k < rest.len() && (#[trigger] rest[k]).start == all[i].start
                            && rest[k].end == all[i].end;
                    assert(ranges[k + 1] == rest[k]);
                }
            } else if all[i].highlighted {
                assert(ranges[0].start == all[i].start && ranges[0].end == all[i].end);
            }
        }
    }
}

/// What is highlighted in a title is one of the title's highlights, in full.
pub proof fn law_highlights_are_those_given(
    bytes: Seq<u8>,
    highlights: Seq<TextHighlight>,
    i: int,
)
    requires
        0 <= i < title_pieces(bytes, highlights).len(),
        title_pieces(bytes, highlights)[i].highlighted,
    ensures
        exists|k: int|
            0 <= k < highlights.len() && (#[trigger] highlights[k]).field is Title
                && highlights[k].start == title_pieces(bytes, highlights)[i].start
                && highlights[k].end == title_pieces(bytes, highlights)[i].end,
{
    let ranges = title_ranges(bytes, highlights);
    let piece = title_pieces(bytes, highlights)[i];
    lemma_highlighted_pieces_are_ranges(bytes.len() as int, ranges, 0, i);
    let k = choose|k: int|
        0 <= k < ranges.len() && (#[trigger] ranges[k]).start == piece.start && ranges[k].end
            == piece.end;
    let kept = lists::kept(highlights, marks_title(bytes));
    lemma_sorted_members(kept, k);
    lists::lemma_kept_members(highlights, marks_title(bytes), ranges[k]);
    let j = choose|j: int| 0 <= j < highlights.len() && highlights[j] == ranges[k];
    assert(highlights[j].field is Title);
}

/// Each title that has a highlight of its own shows one.
pub proof fn law_a_marked_title_is_highlighted(bytes: Seq<u8>, highlights: Seq<TextHighlight>, k: int)
    requires
        0 <= k < highlights.len(),
        marks_title(bytes)(highlights[k]),
    ensures
        exists|i: int|
            0 <= i < title_pieces(bytes, highlights).len() && (#[trigger] title_pieces(
                bytes,
                highlights,
            )[i]).highlighted,
{
    let kept = lists::kept(highlights, marks_title(bytes));
    lists::lemma_kept_members(highlights, marks_title(bytes), highlights[k]);
    lists::law_stable_sort(kept, starts_before());
    let ranges = title_ranges(bytes, highlights);
    let pieces = pieces_from(bytes.len() as int, ranges, 0);
    let i: int = if 0 < ranges[0].start {
        1
    } else {
        0
    };
    assert(kept.len() > 0);
    assert(ranges.len() > 0);
    assert(pieces[i].highlighted);
    assert(title_pieces(bytes, highlights)[i].highlighted);
}

/// A result says that it is pinned where it is, its status where that is known,
/// and its source where it is a command.
pub proof fn law_badges_tell_of_their_result(candidate: CommandPaletteCandidate, i: int)
    requires
        0 <= i < result_badges(candidate).len(),
    ensures
        ({
            let badges = result_badges(candidate);
            let known = candidate.status is Some && candidate.status != Some(SearchStatus::Unknown);
            let command = candidate.action == PaletteAction::RunCommand;
            &&& badges[i].label is Pinned ==> candidate.pinned && badges[i].tone is Warning && i == 0
            &&& badges[i].label matches BadgeLabel::Status(status) ==> candidate.status == Some(
                status,
            ) && known && badges[i].tone == tone_of_status(status)
            &&& badges[i].label matches BadgeLabel::Source(source) ==> command && source
                == candidate.source && badges[i].tone == tone_of_source(source) && i
                == badges.len() - 1
            &&& badges.len() == (if candidate.pinned {
                1int
            } else {
                0int
            }) + (if known {
                1int
            } else {
                0int
            }) + (if command {
                1int
            } else {
                0int
            })
        }),
{
}

/// A row is headed by its category exactly where that begins.
pub proof fn law_categories_are_headed_once(candidates: Seq<CommandPaletteCandidate>, i: int)
    requires
        0 <= i < candidates.len(),
    ensures
        i == 0 ==> row_header(candidates, i) == Some(candidates[i].category),
        i > 0 && candidates[i - 1].category == candidates[i].category ==> row_header(candidates, i)
            is None,
        i > 0 && candidates[i - 1].category != candidates[i].category ==> row_header(candidates, i)
            == Some(candidates[i].category),
{
}

/// A row stands for its candidate, and only the selected one stands out.
pub proof fn law_rows_stand_for_their_candidate(
    row: PaletteRow,
    candidates: Seq<CommandPaletteCandidate>,
    i: int,
    selected: int,
)
    requires
        0 <= i < candidates.len(),
        draws(row, candidates, i, selected),
    ensures
        row.selected <==> i == selected,
        row.border is Accent <==> i == selected,
        row.border is Border <==> i != selected,
        row.icon_tone is Accent <==> i == selected,
        row.icon_tone is Muted <==> i != selected,
        row.detail matches Some(detail) ==> detail == candidates[i].detail,
        row.detail is None <==> says_nothing(candidates[i].detail),
{
}

/// The palette tells that it searches, that it fell back to the archive, and
/// what failed, each exactly where it holds.
pub proof fn law_palette_notices_tell_what_holds(screen: PaletteScreen)
    ensures
        ({
            let notices = palette_notices(screen);
            &&& screen.searching ==> notices[0] == Text::Message(MessageId::GlobalPaletteSearching)
            &&& screen.archived_fallback ==> notices[if screen.searching {
                1int
            } else {
                0int
            }] == Text::Message(MessageId::GlobalPaletteArchivedFallback)
            &&& screen.failure matches Some(message) ==> notices.last() == message
            &&& notices.len() == (if screen.searching {
                1int
            } else {
                0int
            }) + (if screen.archived_fallback {
                1int
            } else {
                0int
            }) + (if screen.failure is Some {
                1int
            } else {
                0int
            })
        }),
{
}

/// An empty palette says whether nothing was asked for or nothing was found;
/// otherwise the place of the selection is told, counted from one.
pub proof fn law_the_palette_tells_its_place(screen: PaletteScreen)
    requires
        screen.selected < u64::MAX,
        screen.candidates@.len() <= u64::MAX,
    ensures
        empty_palette(screen) is Some <==> screen.candidates@.len() == 0,
        palette_position(screen) is Some <==> screen.candidates@.len() > 0,
        empty_palette(screen) matches Some(empty) ==> (empty.title == MessageId::GlobalPaletteEmpty
            <==> screen.query@.len() == 0) && (empty.title == MessageId::GlobalPaletteNoMatch
            <==> screen.query@.len() > 0) && (empty.detail == MessageId::GlobalPaletteEmptyDetail
            <==> screen.query@.len() == 0),
        palette_position(screen) matches Some(told) ==> (told matches Text::FilledTwo(
            _,
            Atom::Number(place),
            Atom::Number(of),
        ) && place == screen.selected + 1 && of == screen.candidates@.len()),
{
}

/// What the empty palette says in detail goes with its title, and the place is
/// told in the words for it.
pub proof fn law_the_empty_palette_is_explained(screen: PaletteScreen)
    ensures
        empty_palette(screen) matches Some(empty) ==> (empty.detail
            == MessageId::GlobalPaletteNoMatchDetail <==> empty.title
            == MessageId::GlobalPaletteNoMatch),
        palette_position(screen) matches Some(told) ==> (told matches Text::FilledTwo(
            MessageId::GlobalPalettePosition,
            _,
            _,
        )),
{
}

} // verus!
