//! The document builder: lays a monitoring record out as the element tree of its report.

use crate::document::{
    Alignment, Block, BlockView, CellNode, CellView, Document, DocumentView, RowNode, TableNode,
    TableView,
};
use crate::models::{opt_text, MonitoringReportData, RecordView};
use crate::style::{
    blank, blank_paragraph, data_cell, data_cell_view, header_cell, header_cell_view, style,
    styled, Role, PAGE_MARGIN_TOP,
};
use crate::text::{comment_lines, split_comment_lines, texts};
use vstd::prelude::*;

verus! {

/// Caption of the report, with which the name of its file starts.
pub const CAPTION: &'static str = "Отчет о результатах мониторинга";

/// Title of the document.
pub const TITLE: &'static str = "Отчет о результатах мониторинга контрагента";

// The labels of the key/value table and of the signal table.

pub const LABEL_INN: &'static str = "ИНН";

pub const LABEL_NAME: &'static str = "Наименование контрагента";

pub const LABEL_SCORING: &'static str = "Скоринг";

pub const LABEL_INDUSTRY: &'static str = "Отрасль";

pub const LABEL_SEGMENT: &'static str = "Сегмент";

pub const LABEL_GROUP: &'static str = "Принадлежность к группе";

pub const LABEL_SIGNAL: &'static str = "Выявленный риск-сигнал";

/// Heading of the comment section.
pub const COMMENTS_HEADING: &'static str = "Comments:";

// The prompts of a comment section without a description, in their order.

pub const PROMPT_RISK: &'static str = "Описание риска";

pub const PROMPT_HISTORY: &'static str = "История и причины возникновения";

pub const PROMPT_MANAGER: &'static str = "Комментарии клиентского менеджера";

pub const PROMPT_OUTLOOK: &'static str = "Перспективы закрытия риск-сигнала";

pub const PROMPT_OTHER: &'static str = "Прочие комментарии";

// The header row of the sign-off table.

pub const LABEL_EMPLOYEE: &'static str = "Employee";

pub const LABEL_PREPARED: &'static str = "Date prepared";

/// Shown in place of the author where the record names none.
pub const NOT_SPECIFIED: &'static str = "Not specified";

/// Number of empty paragraphs between the comments and the sign-off table.
pub const PADDING_LINES: usize = 25;

/// A row of a label and a value.
pub open spec fn labelled_row(label: Seq<char>, value: Seq<char>) -> Seq<CellView> {
    seq![header_cell_view(label), data_cell_view(value)]
}

/// A centred table of the given rows.
pub open spec fn centered_table(rows: Seq<Seq<CellView>>) -> BlockView {
    BlockView::Table(TableView { rows, align: Alignment::Center })
}

/// An empty paragraph as a block.
pub open spec fn blank_block() -> BlockView {
    BlockView::Paragraph(blank())
}

/// The six rows of the key/value table. Scoring and group affiliation stay empty.
pub open spec fn key_value_rows(record: RecordView) -> Seq<Seq<CellView>> {
    seq![
        labelled_row(LABEL_INN@, record.account_inn),
        labelled_row(LABEL_NAME@, record.account_name),
        labelled_row(LABEL_SCORING@, Seq::empty()),
        labelled_row(LABEL_INDUSTRY@, record.industry),
        labelled_row(LABEL_SEGMENT@, record.business_segment_label),
        labelled_row(LABEL_GROUP@, Seq::empty()),
    ]
}

/// The one row of the signal table.
pub open spec fn signal_rows(record: RecordView) -> Seq<Seq<CellView>> {
    seq![labelled_row(LABEL_SIGNAL@, record.signal_name)]
}

/// The prompts that stand in for the comments of a record without a description.
pub open spec fn default_prompts() -> Seq<Seq<char>> {
    seq![PROMPT_RISK@, PROMPT_HISTORY@, PROMPT_MANAGER@, PROMPT_OUTLOOK@, PROMPT_OTHER@]
}

/// The texts of the comment section: the comment lines of the description, or the default
/// prompts where there is none.
pub open spec fn comment_texts(description: Option<Seq<char>>) -> Seq<Seq<char>> {
    match description {
        Some(d) => comment_lines(d),
        None => default_prompts(),
    }
}

/// One comment paragraph for each text, in order.
pub open spec fn comment_blocks(lines: Seq<Seq<char>>) -> Seq<BlockView> {
    lines.map_values(|line: Seq<char>| BlockView::Paragraph(styled(line, Role::CommentDefault)))
}

/// The empty paragraphs that keep room above the sign-off table.
pub open spec fn padding_blocks() -> Seq<BlockView> {
    Seq::new(PADDING_LINES as nat, |i: int| blank_block())
}

/// The author shown in the sign-off table.
pub open spec fn author_text(created_by: Option<Seq<char>>) -> Seq<char> {
    match created_by {
        Some(name) => name,
        None => NOT_SPECIFIED@,
    }
}

/// The two rows of the sign-off table: its header, then the author and the date.
pub open spec fn sign_off_rows(created_by: Option<Seq<char>>, date: Seq<char>) -> Seq<
    Seq<CellView>,
> {
    seq![
        seq![header_cell_view(LABEL_EMPLOYEE@), header_cell_view(LABEL_PREPARED@)],
        seq![data_cell_view(author_text(created_by)), data_cell_view(date)],
    ]
}

/// The blocks from the title down to the heading of the comment section.
pub open spec fn head_blocks(record: RecordView) -> Seq<BlockView> {
    seq![
        BlockView::Paragraph(styled(TITLE@, Role::Title)),
        blank_block(),
        centered_table(key_value_rows(record)),
        blank_block(),
        blank_block(),
        centered_table(signal_rows(record)),
        blank_block(),
        blank_block(),
        BlockView::Paragraph(styled(COMMENTS_HEADING@, Role::Header)),
        blank_block(),
    ]
}

/// The body of the report, block by block.
pub open spec fn report_blocks(record: RecordView, date: Seq<char>) -> Seq<BlockView> {
    head_blocks(record) + comment_blocks(comment_texts(record.description)) + padding_blocks()
        + seq![centered_table(sign_off_rows(record.created_by, date))]
}

/// The report of `record`, dated `date`.
pub open spec fn report_document(record: RecordView, date: Seq<char>) -> DocumentView {
    DocumentView { margin_top: PAGE_MARGIN_TOP, blocks: report_blocks(record, date) }
}

/// The views of a sequence of rows.
pub open spec fn row_views(rows: Seq<RowNode>) -> Seq<Seq<CellView>> {
    rows.map_values(|row: RowNode| row@)
}

/// The views of a sequence of blocks.
pub open spec fn block_views(blocks: Seq<Block>) -> Seq<BlockView> {
    blocks.map_values(|block: Block| block@)
}

fn push_block(blocks: &mut Vec<Block>, block: Block)
    ensures
        block_views(final(blocks)@) == block_views(old(blocks)@).push(block@),
{
    blocks.push(block);
    assert(block_views(blocks@) =~= block_views(old(blocks)@).push(block@));
}

fn row_of_two(first: CellNode, second: CellNode) -> (row: RowNode)
    ensures
        row@ == seq![first@, second@],
{
    let mut cells: Vec<CellNode> = Vec::new();
    cells.push(first);
    cells.push(second);
    let row = RowNode { cells };
    assert(row@ =~= seq![first@, second@]);
    row
}

fn push_labelled_row(rows: &mut Vec<RowNode>, label: &str, value: &str)
    ensures
        row_views(final(rows)@) == row_views(old(rows)@).push(labelled_row(label@, value@)),
{
    let row = row_of_two(header_cell(label), data_cell(value));
    rows.push(row);
    assert(row_views(rows@) =~= row_views(old(rows)@).push(labelled_row(label@, value@)));
}

fn centered(rows: Vec<RowNode>) -> (block: Block)
    ensures
        block@ == centered_table(row_views(rows@)),
{
    Block::Table(TableNode { rows, align: Alignment::Center })
}

/// The key/value table of `record`.
pub fn key_value_table(record: &MonitoringReportData) -> (block: Block)
    ensures
        block@ == centered_table(key_value_rows(record@)),
{
    let mut rows: Vec<RowNode> = Vec::new();
    push_labelled_row(&mut rows, LABEL_INN, record.account_inn.as_str());
    push_labelled_row(&mut rows, LABEL_NAME, record.account_name.as_str());
    push_labelled_row(&mut rows, LABEL_SCORING, "");
    push_labelled_row(&mut rows, LABEL_INDUSTRY, record.industry.as_str());
    push_labelled_row(&mut rows, LABEL_SEGMENT, record.business_segment_label.as_str());
    push_labelled_row(&mut rows, LABEL_GROUP, "");
    proof {
        reveal_strlit("");
        assert(""@ =~= Seq::<char>::empty());
        assert(row_views(rows@) =~= key_value_rows(record@));
    }
    centered(rows)
}

/// The signal table of `record`.
pub fn signal_table(record: &MonitoringReportData) -> (block: Block)
    ensures
        block@ == centered_table(signal_rows(record@)),
{
    let mut rows: Vec<RowNode> = Vec::new();
    push_labelled_row(&mut rows, LABEL_SIGNAL, record.signal_name.as_str());
    assert(row_views(rows@) =~= signal_rows(record@));
    centered(rows)
}

/// The sign-off table: who prepared the report, and when.
pub fn sign_off_table(created_by: &Option<String>, date: &str) -> (block: Block)
    ensures
        block@ == centered_table(sign_off_rows(opt_text(*created_by), date@)),
{
    let author = match created_by {
        Some(name) => data_cell(name.as_str()),
        None => data_cell(NOT_SPECIFIED),
    };
    let mut rows: Vec<RowNode> = Vec::new();
    rows.push(row_of_two(header_cell(LABEL_EMPLOYEE), header_cell(LABEL_PREPARED)));
    rows.push(row_of_two(author, data_cell(date)));
    assert(row_views(rows@) =~= sign_off_rows(opt_text(*created_by), date@));
    centered(rows)
}

/// The texts of the comment section of a report.
pub fn comment_section(description: &Option<String>) -> (lines: Vec<String>)
    ensures
        texts(lines@) == comment_texts(opt_text(*description)),
{
    match description {
        Some(d) => split_comment_lines(d.as_str()),
        None => {
            let mut lines: Vec<String> = Vec::new();
            lines.push(PROMPT_RISK.to_owned());
            lines.push(PROMPT_HISTORY.to_owned());
            lines.push(PROMPT_MANAGER.to_owned());
            lines.push(PROMPT_OUTLOOK.to_owned());
            lines.push(PROMPT_OTHER.to_owned());
            assert(texts(lines@) =~= default_prompts());
            lines
        },
    }
}

/// Builds the report of `record`, dated `date`.
pub fn build_document(record: &MonitoringReportData, date: &str) -> (document: Document)
    ensures
        document@ == report_document(record@, date@),
{
    let mut blocks: Vec<Block> = Vec::new();
    assert(block_views(blocks@) =~= Seq::<BlockView>::empty());
    push_block(&mut blocks, Block::Paragraph(style(TITLE, Role::Title)));
    push_block(&mut blocks, Block::Paragraph(blank_paragraph()));
    push_block(&mut blocks, key_value_table(record));
    push_block(&mut blocks, Block::Paragraph(blank_paragraph()));
    push_block(&mut blocks, Block::Paragraph(blank_paragraph()));
    push_block(&mut blocks, signal_table(record));
    push_block(&mut blocks, Block::Paragraph(blank_paragraph()));
    push_block(&mut blocks, Block::Paragraph(blank_paragraph()));
    push_block(&mut blocks, Block::Paragraph(style(COMMENTS_HEADING, Role::Header)));
    push_block(&mut blocks, Block::Paragraph(blank_paragraph()));
    assert(block_views(blocks@) =~= head_blocks(record@));

    let lines = comment_section(&record.description);
    let ghost wanted = comment_texts(record@.description);
    let mut i: usize = 0;
    while i < lines.len()
        invariant
            i <= lines.len(),
            texts(lines@) == wanted,
            block_views(blocks@) == head_blocks(record@) + comment_blocks(wanted.take(i as int)),
        decreases lines.len() - i,
    {
        let line = style(lines[i].as_str(), Role::CommentDefault);
        push_block(&mut blocks, Block::Paragraph(line));
        proof {
            assert(texts(lines@)[i as int] == lines@[i as int]@);
            assert(comment_blocks(wanted.take(i + 1)) =~= comment_blocks(
                wanted.take(i as int),
            ).push(BlockView::Paragraph(styled(wanted[i as int], Role::CommentDefault))));
        }
        i += 1;
    }
    assert(wanted.take(i as int) =~= wanted);

    let ghost above = head_blocks(record@) + comment_blocks(wanted);
    let mut k: usize = 0;
    while k < PADDING_LINES
        invariant
            k <= PADDING_LINES,
            block_views(blocks@) == above + Seq::new(k as nat, |i: int| blank_block()),
        decreases PADDING_LINES - k,
    {
        push_block(&mut blocks, Block::Paragraph(blank_paragraph()));
        assert(Seq::new((k + 1) as nat, |i: int| blank_block()) =~= Seq::new(
            k as nat,
            |i: int| blank_block(),
        ).push(blank_block()));
        k += 1;
    }
    push_block(&mut blocks, sign_off_table(&record.created_by, date));
    assert(block_views(blocks@) =~= report_blocks(record@, date@));
    Document { margin_top: PAGE_MARGIN_TOP, blocks }
}

} // verus!
