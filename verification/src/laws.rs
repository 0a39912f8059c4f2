//! What holds of every report, whatever the record.

use crate::builder::{
    author_text, blank_block, build_document, centered_table, comment_blocks, comment_texts,
    default_prompts, head_blocks, key_value_rows, padding_blocks, report_blocks,
    report_document, sign_off_rows, signal_rows, COMMENTS_HEADING, NOT_SPECIFIED, PADDING_LINES,
    PROMPT_HISTORY, PROMPT_MANAGER, PROMPT_OTHER, PROMPT_OUTLOOK, PROMPT_RISK, TITLE,
};
use crate::document::{BlockView, Document};
use crate::docx::{docx_content, is_reserved, lemma_plain_text_is_kept, packed_archive};
use crate::error::{
    error_message, ReportError, ReportErrorView, INPUT_FORMAT_PREFIX, PACKAGING_PREFIX,
};
use crate::json::JsonValue;
use crate::models::{MonitoringReportData, RecordView};
use crate::normalizer::{member, missing_field, normalized, normalized_json, FIELD_ACCOUNT_INN};
use crate::packager::{
    archive_outcome, filename, is_package_of, rendered, rendered_block, rendered_paragraph,
    report_filename,
};
use crate::style::{data_cell_view, styled, Role, FONT_FAMILY, PAGE_MARGIN_TOP};
use crate::text::{
    comment_lines, is_space, lemma_line_end_bounds, line_end, trim, trim_end, trim_start,
};
use crate::word_report::{
    assembled_view, is_report_of, report_result_view, GeneratedReport, WordReport,
};
use vstd::prelude::*;

verus! {

/// The layout of a report: ten blocks from the title to the heading of the comments, one
/// paragraph for each comment text, the padding, and the sign-off table at the end.
pub proof fn law_report_layout(record: RecordView, date: Seq<char>)
    ensures
        ({
            let blocks = report_blocks(record, date);
            let comments = comment_texts(record.description);
            &&& blocks.len() == 10 + comments.len() + PADDING_LINES + 1
            &&& blocks[0] == BlockView::Paragraph(styled(TITLE@, Role::Title))
            &&& blocks[1] == blank_block()
            &&& blocks[2] == centered_table(key_value_rows(record))
            &&& blocks[3] == blank_block()
            &&& blocks[4] == blank_block()
            &&& blocks[5] == centered_table(signal_rows(record))
            &&& blocks[6] == blank_block()
            &&& blocks[7] == blank_block()
            &&& blocks[8] == BlockView::Paragraph(styled(COMMENTS_HEADING@, Role::Header))
            &&& blocks[9] == blank_block()
            &&& forall|i: int|
                0 <= i < comments.len() ==> #[trigger] blocks[10 + i] == BlockView::Paragraph(
                    styled(comments[i], Role::CommentDefault),
                )
            &&& forall|i: int|
                0 <= i < PADDING_LINES ==> #[trigger] blocks[10 + comments.len() + i]
                    == blank_block()
            &&& blocks.last() == centered_table(sign_off_rows(record.created_by, date))
        }),
{
    let comments = comment_texts(record.description);
    assert(head_blocks(record).len() == 10);
    assert(comment_blocks(comments).len() == comments.len());
    assert(padding_blocks().len() == PADDING_LINES);
}

/// Whatever the record holds, the key/value table has six rows and the signal table one, and
/// each of these rows has two cells.
pub proof fn law_table_shapes(record: RecordView, date: Seq<char>)
    ensures
        report_document(record, date).blocks[2] == centered_table(key_value_rows(record)),
        key_value_rows(record).len() == 6,
        forall|i: int| 0 <= i < 6 ==> (#[trigger] key_value_rows(record)[i]).len() == 2,
        report_document(record, date).blocks[5] == centered_table(signal_rows(record)),
        signal_rows(record).len() == 1,
        signal_rows(record)[0].len() == 2,
{
    law_report_layout(record, date);
}

/// A record without a description gets exactly the five default prompts as its comments, in
/// their fixed order, between the heading of the comments and the padding.
pub proof fn law_default_comments(record: RecordView, date: Seq<char>)
    requires
        record.description is None,
    ensures
        comment_texts(record.description) == seq![
            PROMPT_RISK@,
            PROMPT_HISTORY@,
            PROMPT_MANAGER@,
            PROMPT_OUTLOOK@,
            PROMPT_OTHER@,
        ],
        report_blocks(record, date).len() == 10 + 5 + PADDING_LINES + 1,
        report_blocks(record, date).subrange(10, 15) == comment_blocks(default_prompts()),
{
    law_report_layout(record, date);
    assert(report_blocks(record, date).subrange(10, 15) =~= comment_blocks(default_prompts()));
}

/// A record with a description gets one comment paragraph for each of its comment lines, in
/// their order.
pub proof fn law_described_comments(record: RecordView, date: Seq<char>)
    requires
        record.description is Some,
    ensures
        ({
            let lines = comment_lines(record.description->Some_0);
            &&& report_blocks(record, date).len() == 10 + lines.len() + PADDING_LINES + 1
            &&& report_blocks(record, date).subrange(10, 10 + lines.len() as int) == comment_blocks(
                lines,
            )
        }),
{
    law_report_layout(record, date);
    let lines = comment_lines(record.description->Some_0);
    assert(report_blocks(record, date).subrange(10, 10 + lines.len() as int) =~= comment_blocks(
        lines,
    ));
}

/// The data row of the sign-off table shows the author of the record, or the placeholder
/// where the record names none, and then the date.
pub proof fn law_sign_off(record: RecordView, date: Seq<char>)
    ensures
        report_blocks(record, date).last() == centered_table(
            sign_off_rows(record.created_by, date),
        ),
        sign_off_rows(record.created_by, date).len() == 2,
        sign_off_rows(record.created_by, date)[1] == seq![
            data_cell_view(author_text(record.created_by)),
            data_cell_view(date),
        ],
        record.created_by is None ==> author_text(record.created_by) == NOT_SPECIFIED@,
        record.created_by matches Some(name) ==> author_text(record.created_by) == name,
{
    law_report_layout(record, date);
}

/// Two runs of `build_document` on records that hold the same, for the same date, give the
/// same tree, and so hand the same content to the document writer.
pub proof fn law_build_is_deterministic(
    first_record: &MonitoringReportData,
    first_date: &str,
    first: Document,
    second_record: &MonitoringReportData,
    second_date: &str,
    second: Document,
)
    requires
        first_record@ == second_record@,
        first_date@ == second_date@,
        call_ensures(build_document, (first_record, first_date), first),
        call_ensures(build_document, (second_record, second_date), second),
    ensures
        first@ == second@,
        rendered(first@) == rendered(second@),
{
}

/// Two runs of `filename` on the same name and date give the same name of the file.
pub proof fn law_filename_is_deterministic(
    first_name: &str,
    first_date: &str,
    first: String,
    second_name: &str,
    second_date: &str,
    second: String,
)
    requires
        first_name@ == second_name@,
        first_date@ == second_date@,
        call_ensures(filename, (first_name, first_date), first),
        call_ensures(filename, (second_name, second_date), second),
    ensures
        first@ == second@,
{
}

/// Two runs of `WordReport::generate_word_on` on the same payload and date agree in all that
/// the library decides. Where the payload is no record, both give the same error. Else each
/// gives the outcome of packing a document of the writer that holds the record's report, so
/// the two documents hold the same; where both succeed, the reports carry the same name.
pub proof fn law_generation_is_deterministic(
    first_payload: &str,
    first_date: &str,
    first: Result<GeneratedReport, ReportError>,
    second_payload: &str,
    second_date: &str,
    second: Result<GeneratedReport, ReportError>,
)
    requires
        first_payload@ == second_payload@,
        first_date@ == second_date@,
        call_ensures(WordReport::generate_word_on, (first_payload, first_date), first),
        call_ensures(WordReport::generate_word_on, (second_payload, second_date), second),
    ensures
        normalized(first_payload@) is Err ==> first is Err && second is Err && first->Err_0@
            == second->Err_0@,
        first is Ok && second is Ok ==> first->Ok_0.filename@ == second->Ok_0.filename@,
        normalized(first_payload@) matches Ok(record) ==> exists|
            one: docx_rs::Docx,
            other: docx_rs::Docx,
        |
            {
                &&& #[trigger] is_written_report(record, first_date@, one, first)
                &&& #[trigger] is_written_report(record, first_date@, other, second)
                &&& docx_content(one) == docx_content(other)
            },
{
    if normalized(first_payload@) is Ok {
        let record = normalized(first_payload@)->Ok_0;
        let date = first_date@;
        law_report_is_written(record, date, first);
        law_report_is_written(record, date, second);
        let one = choose|docx: docx_rs::Docx| is_written_report(record, date, docx, first);
        let other = choose|docx: docx_rs::Docx| is_written_report(record, date, docx, second);
        assert(is_written_report(record, date, one, first));
        assert(is_written_report(record, date, other, second));
    }
}

/// Whether `result` is the report of `record`, dated `date`, as it comes of packing `docx`:
/// `docx` holds the rendering of the record's report, block by block, and `result` is the
/// outcome of packing it, under the name of the record's file.
pub open spec fn is_written_report(
    record: RecordView,
    date: Seq<char>,
    docx: docx_rs::Docx,
    result: Result<GeneratedReport, ReportError>,
) -> bool {
    let blocks = report_blocks(record, date);
    &&& docx_content(docx) == rendered(report_document(record, date))
    &&& docx_content(docx).margin_top == PAGE_MARGIN_TOP
    &&& docx_content(docx).body.len() == blocks.len()
    &&& forall|i: int|
        0 <= i < blocks.len() ==> #[trigger] docx_content(docx).body[i] == rendered_block(
            blocks[i],
        )
    &&& report_result_view(result) == assembled_view(
        archive_outcome(packed_archive(docx)),
        report_filename(record.account_name, date),
    )
}

/// The report that the generation returns for a record is the outcome of packing a document
/// of the writer that holds the record's report: its margin and, block by block, in the
/// order of the layout, the rendering of each block.
pub proof fn law_report_is_written(
    record: RecordView,
    date: Seq<char>,
    result: Result<GeneratedReport, ReportError>,
)
    requires
        is_report_of(record, date, result),
    ensures
        exists|docx: docx_rs::Docx| is_written_report(record, date, docx, result),
{
    let outcome = choose|outcome: Result<Seq<u8>, ReportErrorView>|
        #[trigger] is_package_of(report_document(record, date), outcome) && report_result_view(
            result,
        ) == assembled_view(outcome, report_filename(record.account_name, date));
    let docx = choose|docx: docx_rs::Docx|
        docx_content(docx) == rendered(report_document(record, date)) && outcome
            == archive_outcome(#[trigger] packed_archive(docx));
    assert(is_written_report(record, date, docx, result));
}

/// A comment line, a label or a value without characters that XML reserves reaches the
/// writer's document as it is, in the look of its role.
pub proof fn law_plain_text_is_rendered_as_it_is(text: Seq<char>, role: Role)
    requires
        forall|i: int| 0 <= i < text.len() ==> !is_reserved(#[trigger] text[i]),
    ensures
        rendered_paragraph(styled(text, role)).runs.len() == 1,
        rendered_paragraph(styled(text, role)).runs[0].texts == seq![text],
        rendered_paragraph(styled(text, role)).runs[0].font == Some(FONT_FAMILY@),
        rendered_paragraph(styled(text, role)).align == styled(text, role).align,
{
    lemma_plain_text_is_kept(text);
    reveal_strlit("Arial");
    lemma_plain_text_is_kept(FONT_FAMILY@);
}

/// The message of an input format error is never that of a packaging error.
pub proof fn law_messages_tell_kinds_apart(complaint: Seq<char>, other: Seq<char>)
    ensures
        error_message(ReportErrorView::InputFormatError(complaint)) != error_message(
            ReportErrorView::PackagingError(other),
        ),
{
    reveal_strlit("InputFormatError: ");
    reveal_strlit("PackagingError: ");
    let input = error_message(ReportErrorView::InputFormatError(complaint));
    let packaging = error_message(ReportErrorView::PackagingError(other));
    assert(input[0] == INPUT_FORMAT_PREFIX@[0]);
    assert(packaging[0] == PACKAGING_PREFIX@[0]);
}

/// A JSON object without the member `account_inn` is no record: the normalizer gives an input
/// format error, which names the member.
pub proof fn law_missing_account_inn(members: Vec<(String, JsonValue)>)
    requires
        member(members@, FIELD_ACCOUNT_INN@) is None,
    ensures
        normalized_json(JsonValue::Object(members)) == Err::<RecordView, ReportErrorView>(
            ReportErrorView::InputFormatError(missing_field(FIELD_ACCOUNT_INN@)),
        ),
{
}

proof fn lemma_trim_start_keeps(s: Seq<char>)
    ensures
        trim_start(s).len() <= s.len(),
        trim_start(s) == s.skip(s.len() - trim_start(s).len()),
        trim_start(s).len() > 0 ==> !is_space(trim_start(s)[0]),
    decreases s.len(),
{
    if s.len() > 0 && is_space(s[0]) {
        lemma_trim_start_keeps(s.drop_first());
        let rest = s.drop_first();
        assert(rest.skip(rest.len() - trim_start(rest).len()) =~= s.skip(
            s.len() - trim_start(s).len(),
        ));
    } else {
        assert(s.skip(0) =~= s);
    }
}

proof fn lemma_trim_end_keeps(s: Seq<char>)
    ensures
        trim_end(s).len() <= s.len(),
        trim_end(s) == s.take(trim_end(s).len() as int),
        trim_end(s).len() > 0 ==> !is_space(trim_end(s).last()),
    decreases s.len(),
{
    if s.len() > 0 && is_space(s.last()) {
        lemma_trim_end_keeps(s.drop_last());
        let rest = s.drop_last();
        assert(rest.take(trim_end(rest).len() as int) =~= s.take(trim_end(s).len() as int));
    } else {
        assert(s.take(s.len() as int) =~= s);
    }
}

/// What trimming leaves is a part of the text, and it neither starts nor ends with white
/// space.
pub proof fn law_trim(s: Seq<char>)
    ensures
        exists|from: int, to: int| 0 <= from <= to <= s.len() && trim(s) == s.subrange(from, to),
        trim(s).len() > 0 ==> !is_space(trim(s)[0]) && !is_space(trim(s).last()),
{
    lemma_trim_start_keeps(s);
    let start = trim_start(s);
    lemma_trim_end_keeps(start);
    let from = s.len() - start.len();
    let to = from + trim(s).len();
    assert(trim(s) =~= s.subrange(from, to));
    if trim(s).len() > 0 {
        assert(trim(s)[0] == start[0]);
    }
}

/// Every comment line is a trimmed piece of the description: it is not empty, it neither
/// starts nor ends with white space, and it holds no line feed.
pub proof fn law_comment_lines(s: Seq<char>)
    ensures
        forall|i: int|
            0 <= i < comment_lines(s).len() ==> {
                let line = #[trigger] comment_lines(s)[i];
                &&& line.len() > 0
                &&& !is_space(line[0])
                &&& !is_space(line.last())
                &&& forall|k: int| 0 <= k < line.len() ==> line[k] != '\n'
            },
    decreases s.len(),
{
    let end = line_end(s) as int;
    let piece = s.take(end);
    lemma_line_end_bounds(s);
    law_trim(piece);
    let (from, to) = choose|from: int, to: int|
        0 <= from <= to <= piece.len() && trim(piece) == piece.subrange(from, to);
    assert forall|k: int| 0 <= k < trim(piece).len() implies trim(piece)[k] != '\n' by {
        assert(trim(piece)[k] == s[from + k]);
    }
    let first = if trim(piece).len() > 0 {
        seq![trim(piece)]
    } else {
        Seq::<Seq<char>>::empty()
    };
    if end < s.len() {
        let rest = comment_lines(s.skip(end + 1));
        law_comment_lines(s.skip(end + 1));
        assert(comment_lines(s) == first + rest);
        assert forall|i: int| 0 <= i < comment_lines(s).len() implies {
            let line = #[trigger] comment_lines(s)[i];
            &&& line.len() > 0
            &&& !is_space(line[0])
            &&& !is_space(line.last())
            &&& forall|k: int| 0 <= k < line.len() ==> line[k] != '\n'
        } by {
            if i < first.len() {
                assert(comment_lines(s)[i] == trim(piece));
            } else {
                assert(comment_lines(s)[i] == rest[i - first.len()]);
            }
        }
    } else {
        assert(comment_lines(s) == first);
    }
}

/// A description of one line gives that line, trimmed, unless nothing is left of it.
pub proof fn law_single_line(s: Seq<char>)
    requires
        forall|k: int| 0 <= k < s.len() ==> s[k] != '\n',
    ensures
        comment_lines(s) == if trim(s).len() > 0 {
            seq![trim(s)]
        } else {
            Seq::<Seq<char>>::empty()
        },
{
    lemma_line_end_bounds(s);
    assert(s.take(s.len() as int) =~= s);
}

} // verus!
