//! What a report shows of a result and of a summary: the tier of a
//! status, the part of a long body that is shown, and the rows of the
//! summary box.

use vstd::prelude::*;
use vstd::string::*;
use crate::text::{concat_text, decimal, repeat_text, repeated, texts_view, u64_to_decimal};

verus! {

/// How a received status is marked in a report.
#[derive(Clone, Copy, Debug, PartialEq, Eq, Structural)]
pub enum StatusTier {
    Success,
    ClientError,
    ServerError,
    Other,
}

/// The tier of a status: a success as such; of the others, 4xx is a
/// client error, 5xx a server error, and every other code the rest.
pub open spec fn tier_of(success: bool, code: u16) -> StatusTier {
    if success {
        StatusTier::Success
    } else if 400 <= code < 500 {
        StatusTier::ClientError
    } else if 500 <= code < 600 {
        StatusTier::ServerError
    } else {
        StatusTier::Other
    }
}

/// Sorts a received status into its tier.
pub fn status_tier(success: bool, code: u16) -> (tier: StatusTier)
    ensures
        tier == tier_of(success, code),
{
    if success {
        StatusTier::Success
    } else if code >= 400 && code < 500 {
        StatusTier::ClientError
    } else if code >= 500 && code < 600 {
        StatusTier::ServerError
    } else {
        StatusTier::Other
    }
}

/// The mark that stands before the status of each tier.
pub open spec fn tier_mark(tier: StatusTier) -> Seq<char> {
    match tier {
        StatusTier::Success => "\u{2705} Status: "@,
        StatusTier::ClientError => "\u{26a0}\u{fe0f}  Status: "@,
        StatusTier::ServerError => "\u{274c} Status: "@,
        StatusTier::Other => "\u{2139}\u{fe0f}  Status: "@,
    }
}

/// The status line of a result: the mark of its tier, the code and the
/// status text.
pub open spec fn status_line_text(success: bool, code: u16, status_text: Seq<char>) -> Seq<char> {
    tier_mark(tier_of(success, code)) + decimal(code as nat) + " "@ + status_text
}

/// Writes the status line of a result.
pub fn status_line(success: bool, code: u16, status_text: &str) -> (line: String)
    ensures
        line@ == status_line_text(success, code, status_text@),
{
    let mark = match status_tier(success, code) {
        StatusTier::Success => "\u{2705} Status: ",
        StatusTier::ClientError => "\u{26a0}\u{fe0f}  Status: ",
        StatusTier::ServerError => "\u{274c} Status: ",
        StatusTier::Other => "\u{2139}\u{fe0f}  Status: ",
    };
    let number = u64_to_decimal(code as u64);
    let mut line = concat_text(mark, number.as_str());
    line.append(" ");
    line.append(status_text);
    line
}

/// The label that counts a result among the results of a run.
pub open spec fn progress_label_text(index: nat, total: nat) -> Seq<char> {
    "["@ + decimal(index) + "/"@ + decimal(total) + "]"@
}

/// Writes the label that counts a result among the results of a run.
pub fn progress_label(index: usize, total: usize) -> (label: String)
    ensures
        label@ == progress_label_text(index as nat, total as nat),
{
    let mut label = concat_text("[", u64_to_decimal(index as u64).as_str());
    label.append("/");
    label.append(u64_to_decimal(total as u64).as_str());
    label.append("]");
    label
}

/// How many characters of a response body are shown.
pub const PREVIEW_LIMIT: usize = 500;

/// The part of a body that is shown, and how much was left out.
#[derive(Clone, Debug)]
pub struct BodyPreview {
    pub shown: String,
    pub truncated: usize,
}

/// The part of a body that is shown: all of it, or its first 500
/// characters.
pub open spec fn shown_part(body: Seq<char>) -> Seq<char> {
    if body.len() > PREVIEW_LIMIT {
        body.take(PREVIEW_LIMIT as int)
    } else {
        body
    }
}

/// How many characters of a body are left out.
pub open spec fn truncated_count(body: Seq<char>) -> nat {
    if body.len() > PREVIEW_LIMIT {
        (body.len() - PREVIEW_LIMIT) as nat
    } else {
        0
    }
}

/// Cuts a body down to what is shown.
pub fn preview_body(body: &str) -> (preview: BodyPreview)
    ensures
        preview.shown@ == shown_part(body@),
        preview.truncated == truncated_count(body@),
{
    let length = body.unicode_len();
    if length > PREVIEW_LIMIT {
        let shown = String::from_str(body.substring_char(0, PREVIEW_LIMIT));
        BodyPreview { shown, truncated: length - PREVIEW_LIMIT }
    } else {
        BodyPreview { shown: String::from_str(body), truncated: 0 }
    }
}

/// The notice that follows a body that was cut.
pub open spec fn truncation_notice_text(truncated: nat) -> Seq<char> {
    "... ("@ + decimal(truncated) + " bytes truncated)"@
}

/// Writes the notice that follows a body that was cut.
pub fn truncation_notice(truncated: usize) -> (notice: String)
    ensures
        notice@ == truncation_notice_text(truncated as nat),
{
    let mut notice = concat_text("... (", u64_to_decimal(truncated as u64).as_str());
    notice.append(" bytes truncated)");
    notice
}

/// The lines that list the failed requests: each name after a dash.
pub open spec fn failed_name_lines(names: Seq<Seq<char>>) -> Seq<Seq<char>> {
    names.map_values(|name: Seq<char>| "  - "@ + name)
}

/// The lines of a summary: the three counts and the rate, and, where
/// requests failed, an empty line, a heading and their names.
pub open spec fn summary_lines_of(
    total: nat,
    success: nat,
    failed: nat,
    rate: Seq<char>,
    names: Seq<Seq<char>>,
) -> Seq<Seq<char>> {
    let counts = seq![
        "Total: "@ + decimal(total),
        "Success: "@ + decimal(success),
        "Failed: "@ + decimal(failed),
        "Success rate: "@ + rate + "%"@,
    ];
    if names.len() == 0 {
        counts
    } else {
        counts + seq![Seq::empty(), "Failed Requests:"@] + failed_name_lines(names)
    }
}

/// Writes the lines of a summary. The rate comes as it is to be shown,
/// without the percent sign.
pub fn summary_lines(
    total: usize,
    success: usize,
    failed: usize,
    rate: &str,
    failed_names: &Vec<String>,
) -> (lines: Vec<String>)
    ensures
        texts_view(lines@) == summary_lines_of(
            total as nat,
            success as nat,
            failed as nat,
            rate@,
            texts_view(failed_names@),
        ),
{
    let ghost names = texts_view(failed_names@);
    let mut rate_line = concat_text("Success rate: ", rate);
    rate_line.append("%");
    let mut lines: Vec<String> = Vec::new();
    lines.push(concat_text("Total: ", u64_to_decimal(total as u64).as_str()));
    lines.push(concat_text("Success: ", u64_to_decimal(success as u64).as_str()));
    lines.push(concat_text("Failed: ", u64_to_decimal(failed as u64).as_str()));
    lines.push(rate_line);
    let ghost counts = texts_view(lines@);
    assert(counts =~= seq![
        "Total: "@ + decimal(total as nat),
        "Success: "@ + decimal(success as nat),
        "Failed: "@ + decimal(failed as nat),
        "Success rate: "@ + rate@ + "%"@,
    ]);
    if failed_names.len() == 0 {
        return lines;
    }
    lines.push(String::new());
    lines.push(String::from_str("Failed Requests:"));
    let ghost head = texts_view(lines@);
    let mut i: usize = 0;
    while i < failed_names.len()
        invariant
            i <= failed_names.len(),
            names == texts_view(failed_names@),
            texts_view(lines@) == head + failed_name_lines(names.take(i as int)),
        decreases failed_names.len() - i,
    {
        let ghost before = lines@;
        lines.push(concat_text("  - ", failed_names[i].as_str()));
        proof {
            let text_of = |text: String| text@;
            let dash = |name: Seq<char>| "  - "@ + name;
            before.lemma_push_map_commute(text_of, lines@.last());
            names.take(i as int).lemma_push_map_commute(dash, names[i as int]);
        }
        i += 1;
    }
    lines
}

/// The title of the summary box.
pub const BOX_TITLE: &'static str = "Test Summary";

/// The number of terminal columns that a text takes.
pub uninterp spec fn display_width(text: Seq<char>) -> usize;

/// Calls `unicode_width::UnicodeWidthStr::width`. The width depends on
/// the text alone; how it comes about is left to that crate's tables.
#[verifier::external_body]
fn measure_width(text: &str) -> (width: usize)
    ensures
        width == display_width(text@),
{
    unicode_width::UnicodeWidthStr::width(text)
}

/// The greatest of some widths, and zero where there are none.
pub open spec fn widest(widths: Seq<usize>) -> nat
    decreases widths.len(),
{
    if widths.len() == 0 {
        0
    } else {
        let rest = widest(widths.drop_last());
        if widths.last() > rest {
            widths.last() as nat
        } else {
            rest
        }
    }
}

/// How wide the box is between its borders, and what stands left and
/// right of its title.
#[derive(Clone, Copy, Debug, PartialEq, Eq, Structural)]
pub struct BoxLayout {
    pub width: usize,
    pub title_left: usize,
    pub title_right: usize,
}

/// The width of the box between its borders: four more than the widest
/// line or the title, whichever is wider.
pub open spec fn box_width_of(title_width: usize, line_widths: Seq<usize>) -> nat {
    if widest(line_widths) > title_width {
        widest(line_widths) + 4
    } else {
        (title_width + 4) as nat
    }
}

/// The layout of the box, where its width is a machine number: the
/// title stands in the middle, with the odd column to its right.
pub open spec fn layout_of(title_width: usize, line_widths: Seq<usize>) -> Option<BoxLayout> {
    let width = box_width_of(title_width, line_widths);
    if width > usize::MAX {
        None
    } else {
        let spare = width - title_width;
        Some(
            BoxLayout {
                width: width as usize,
                title_left: (spare / 2) as usize,
                title_right: (spare - spare / 2) as usize,
            },
        )
    }
}

/// Lays the box out from the width of its title and of its lines.
pub fn box_layout(title_width: usize, line_widths: &Vec<usize>) -> (layout: Option<BoxLayout>)
    ensures
        layout == layout_of(title_width, line_widths@),
{
    let mut inner: usize = title_width;
    let mut i: usize = 0;
    while i < line_widths.len()
        invariant
            i <= line_widths.len(),
            inner as nat == if widest(line_widths@.take(i as int)) > title_width {
                widest(line_widths@.take(i as int))
            } else {
                title_width as nat
            },
        decreases line_widths.len() - i,
    {
        assert(line_widths@.take(i + 1).drop_last() =~= line_widths@.take(i as int));
        if line_widths[i] > inner {
            inner = line_widths[i];
        }
        i += 1;
    }
    assert(line_widths@.take(line_widths.len() as int) =~= line_widths@);
    match inner.checked_add(4) {
        Some(width) => {
            let spare = width - title_width;
            let left = spare / 2;
            Some(BoxLayout { width, title_left: left, title_right: spare - left })
        },
        None => None,
    }
}

/// A border of the box: a corner, the line between, a corner.
pub open spec fn border_row(left: Seq<char>, width: nat, right: Seq<char>) -> Seq<char> {
    left + repeated("\u{2500}"@, width) + right
}

/// The row that holds the title.
pub open spec fn title_row(layout: BoxLayout) -> Seq<char> {
    "\u{2502}"@ + repeated(" "@, layout.title_left as nat) + BOX_TITLE@ + repeated(
        " "@,
        layout.title_right as nat,
    ) + "\u{2502}"@
}

/// A line as it stands in the box: after a margin of two blanks.
pub open spec fn content_of(line: Seq<char>) -> Seq<char> {
    "  "@ + line
}

/// The row that holds a line: the line after its margin, filled up with
/// blanks to the width of the box.
pub open spec fn line_row(width: nat, line: Seq<char>) -> Seq<char> {
    "\u{2502}"@ + content_of(line) + repeated(
        " "@,
        (width - display_width(content_of(line))) as nat,
    ) + "\u{2502}"@
}

/// The rows of some lines.
pub open spec fn line_rows(width: nat, lines: Seq<Seq<char>>) -> Seq<Seq<char>> {
    lines.map_values(|line: Seq<char>| line_row(width, line))
}

/// The widths of some lines.
pub open spec fn line_widths_of(lines: Seq<Seq<char>>) -> Seq<usize> {
    lines.map_values(|line: Seq<char>| display_width(line))
}

/// Whether every line, with its margin, finds room in the box.
pub open spec fn all_fit(lines: Seq<Seq<char>>, width: nat) -> bool {
    forall|i: int| 0 <= i < lines.len() ==> display_width(content_of(#[trigger] lines[i])) <= width
}

/// The rows of the summary box around some lines: the upper border, the
/// title, a rule, the lines, the lower border. There is no box where its
/// width is no machine number or a line finds no room in it.
pub open spec fn box_rows_of(lines: Seq<Seq<char>>) -> Option<Seq<Seq<char>>> {
    match layout_of(display_width(BOX_TITLE@), line_widths_of(lines)) {
        None => None,
        Some(layout) => if all_fit(lines, layout.width as nat) {
            Some(
                seq![
                    border_row("\u{250c}"@, layout.width as nat, "\u{2510}"@),
                    title_row(layout),
                    border_row("\u{251c}"@, layout.width as nat, "\u{2524}"@),
                ] + line_rows(layout.width as nat, lines) + seq![
                    border_row("\u{2514}"@, layout.width as nat, "\u{2518}"@),
                ],
            )
        } else {
            None
        },
    }
}

/// The views of the rows of a box, where there is one.
pub open spec fn opt_texts_view(rows: Option<Vec<String>>) -> Option<Seq<Seq<char>>> {
    match rows {
        Some(list) => Some(texts_view(list@)),
        None => None,
    }
}

/// Measures each line.
fn measure_lines(lines: &Vec<String>) -> (widths: Vec<usize>)
    ensures
        widths@ == line_widths_of(texts_view(lines@)),
{
    let mut widths: Vec<usize> = Vec::new();
    let mut i: usize = 0;
    while i < lines.len()
        invariant
            i <= lines.len(),
            widths@.len() == i,
            forall|j: int| 0 <= j < i ==> widths@[j] == display_width(#[trigger] lines@[j]@),
        decreases lines.len() - i,
    {
        widths.push(measure_width(lines[i].as_str()));
        i += 1;
    }
    widths
}

/// Writes a border of the box.
fn write_border(left: &str, width: usize, right: &str) -> (row: String)
    ensures
        row@ == border_row(left@, width as nat, right@),
{
    let mut row = concat_text(left, repeat_text("\u{2500}", width).as_str());
    row.append(right);
    row
}

/// Writes the row that holds the title.
fn write_title_row(layout: BoxLayout) -> (row: String)
    ensures
        row@ == title_row(layout),
{
    let mut row = concat_text("\u{2502}", repeat_text(" ", layout.title_left).as_str());
    row.append(BOX_TITLE);
    row.append(repeat_text(" ", layout.title_right).as_str());
    row.append("\u{2502}");
    row
}

/// Writes the row that holds a line, where the line finds room.
fn write_line_row(width: usize, line: &str) -> (row: Option<String>)
    ensures
        match row {
            Some(r) => display_width(content_of(line@)) <= width && r@ == line_row(
                width as nat,
                line@,
            ),
            None => display_width(content_of(line@)) > width,
        },
{
    let content = concat_text("  ", line);
    let taken = measure_width(content.as_str());
    if taken > width {
        return None;
    }
    let mut row = concat_text("\u{2502}", content.as_str());
    row.append(repeat_text(" ", width - taken).as_str());
    row.append("\u{2502}");
    Some(row)
}

/// Draws the summary box around the lines of a summary.
pub fn render_summary_box(lines: &Vec<String>) -> (rows: Option<Vec<String>>)
    ensures
        opt_texts_view(rows) == box_rows_of(texts_view(lines@)),
{
    let ghost texts = texts_view(lines@);
    let title_width = measure_width(BOX_TITLE);
    let widths = measure_lines(lines);
    let layout = match box_layout(title_width, &widths) {
        Some(layout) => layout,
        None => {
            return None;
        },
    };
    let width = layout.width;
    let mut rows: Vec<String> = Vec::new();
    rows.push(write_border("\u{250c}", width, "\u{2510}"));
    rows.push(write_title_row(layout));
    rows.push(write_border("\u{251c}", width, "\u{2524}"));
    let ghost head = texts_view(rows@);
    assert(head =~= seq![
        border_row("\u{250c}"@, width as nat, "\u{2510}"@),
        title_row(layout),
        border_row("\u{251c}"@, width as nat, "\u{2524}"@),
    ]);
    let mut i: usize = 0;
    while i < lines.len()
        invariant
            i <= lines.len(),
            texts == texts_view(lines@),
            width == layout.width,
            layout_of(display_width(BOX_TITLE@), line_widths_of(texts)) == Some(layout),
            all_fit(texts.take(i as int), width as nat),
            texts_view(rows@) == head + line_rows(width as nat, texts.take(i as int)),
        decreases lines.len() - i,
    {
        let ghost before = rows@;
        match write_line_row(width, lines[i].as_str()) {
            Some(row) => {
                rows.push(row);
            },
            None => {
                assert(texts[i as int] == lines@[i as int]@);
                return None;
            },
        }
        proof {
            let text_of = |text: String| text@;
            let row_of = |line: Seq<char>| line_row(width as nat, line);
            before.lemma_push_map_commute(text_of, rows@.last());
            texts.take(i as int).lemma_push_map_commute(row_of, texts[i as int]);
        }
        i += 1;
    }
    assert(texts.take(lines.len() as int) =~= texts);
    rows.push(write_border("\u{2514}", width, "\u{2518}"));
    proof {
        let text_of = |text: String| text@;
        let last = rows@.last();
        rows@.drop_last().lemma_push_map_commute(text_of, last);
    }
    Some(rows)
}

} // verus!
