//! The packager: hands the element tree to the document writer, has it packed into an
//! archive, and derives the name of the file.

use crate::builder::CAPTION;
use crate::document::{
    Block, BlockView, CellNode, CellView, Document, DocumentView, ParagraphNode, ParagraphView,
    RowNode, TableNode, TableView, TextRun, TextRunView,
};
use crate::docx::{
    cell_add_paragraph, cell_content, cell_new, cell_shading, cell_width, docx_add_paragraph,
    docx_add_table, docx_content, docx_margin_top, docx_new, docx_pack, kept_font, kept_text,
    pack_view, packed_archive, paragraph_add_run, paragraph_align, paragraph_content,
    paragraph_new, row_content, row_new, run_add_text, run_bold, run_content, run_fonts,
    run_italic, run_new, run_size, table_align, table_content, table_new, BodyContent,
    CellContent, DocxContent, ParagraphContent, RunContent, TableContent,
};
use crate::error::{ReportError, ReportErrorView};
use vstd::prelude::*;
use vstd::string::StringExecFns;

verus! {

/// Extension of the file.
pub const EXTENSION: &'static str = ".docx";

/// The name of the file of a report: the caption, the counterparty's name as it is given, the
/// date and the extension.
pub open spec fn report_filename(account_name: Seq<char>, date: Seq<char>) -> Seq<char> {
    CAPTION@ + seq![' '] + account_name + seq![' '] + date + EXTENSION@
}

/// The name of the file of a report.
pub fn filename(account_name: &str, date: &str) -> (name: String)
    ensures
        name@ == report_filename(account_name@, date@),
{
    proof {
        reveal_strlit(" ");
        assert(" "@ =~= seq![' ']);
    }
    let mut name = String::from_str(CAPTION);
    name.append(" ");
    name.append(account_name);
    name.append(" ");
    name.append(date);
    name.append(EXTENSION);
    name
}

/// What the writer's run holds for a run of the tree.
pub open spec fn rendered_run(run: TextRunView) -> RunContent {
    RunContent {
        texts: seq![kept_text(run.text)],
        bold: run.bold,
        italic: run.italic,
        size: run.size,
        font: match run.font {
            Some(family) => Some(kept_font(family)),
            None => None,
        },
    }
}

/// What the writer's paragraph holds for a paragraph of the tree.
pub open spec fn rendered_paragraph(paragraph: ParagraphView) -> ParagraphContent {
    ParagraphContent { runs: seq![rendered_run(paragraph.run)], align: paragraph.align }
}

/// What the writer's cell holds for a cell of the tree.
pub open spec fn rendered_cell(cell: CellView) -> CellContent {
    CellContent {
        paragraphs: seq![rendered_paragraph(cell.paragraph)],
        fill: cell.fill,
        width: Some(cell.width),
    }
}

/// The writer's row for a row of the tree.
pub open spec fn rendered_row(row: Seq<CellView>) -> Seq<CellContent> {
    row.map_values(|cell: CellView| rendered_cell(cell))
}

/// What the writer's table holds for a table of the tree.
pub open spec fn rendered_table(table: TableView) -> TableContent {
    TableContent {
        rows: table.rows.map_values(|row: Seq<CellView>| rendered_row(row)),
        align: table.align,
    }
}

/// The child of the writer's body for a block of the tree.
pub open spec fn rendered_block(block: BlockView) -> BodyContent {
    match block {
        BlockView::Paragraph(paragraph) => BodyContent::Paragraph(rendered_paragraph(paragraph)),
        BlockView::Table(table) => BodyContent::Table(rendered_table(table)),
    }
}

/// What the writer's document holds for a document of the tree.
pub open spec fn rendered(document: DocumentView) -> DocxContent {
    DocxContent {
        margin_top: document.margin_top,
        body: document.blocks.map_values(|block: BlockView| rendered_block(block)),
    }
}

/// Hands a run to the writer.
pub fn render_run(run: &TextRun) -> (out: docx_rs::Run)
    ensures
        run_content(out) == rendered_run(run@),
{
    let mut out = run_add_text(run_new(), run.text.as_str());
    assert(run_content(out).texts =~= seq![kept_text(run.text@)]);
    if run.bold {
        out = run_bold(out);
    }
    if let Some(size) = run.size {
        out = run_size(out, size);
    }
    if let Some(family) = &run.font {
        out = run_fonts(out, family.as_str());
    }
    if run.italic {
        out = run_italic(out);
    }
    out
}

/// Hands a paragraph to the writer.
pub fn render_paragraph(paragraph: &ParagraphNode) -> (out: docx_rs::Paragraph)
    ensures
        paragraph_content(out) == rendered_paragraph(paragraph@),
{
    let mut out = paragraph_add_run(paragraph_new(), render_run(&paragraph.run));
    assert(paragraph_content(out).runs =~= seq![rendered_run(paragraph.run@)]);
    if let Some(align) = paragraph.align {
        out = paragraph_align(out, align);
    }
    out
}

/// Hands a cell to the writer.
pub fn render_cell(cell: &CellNode) -> (out: docx_rs::TableCell)
    ensures
        cell_content(out) == rendered_cell(cell@),
{
    let mut out = cell_new();
    if let Some(fill) = &cell.fill {
        out = cell_shading(out, fill.as_str());
    }
    out = cell_width(out, cell.width);
    out = cell_add_paragraph(out, render_paragraph(&cell.paragraph));
    assert(cell_content(out).paragraphs =~= seq![rendered_paragraph(cell.paragraph@)]);
    out
}

/// Hands a row to the writer.
pub fn render_row(row: &RowNode) -> (out: docx_rs::TableRow)
    ensures
        row_content(out) == rendered_row(row@),
{
    let mut cells: Vec<docx_rs::TableCell> = Vec::new();
    let mut i: usize = 0;
    while i < row.cells.len()
        invariant
            i <= row.cells.len(),
            cells@.len() == i,
            forall|k: int|
                0 <= k < i ==> cell_content(#[trigger] cells@[k]) == rendered_cell(
                    row.cells@[k]@,
                ),
        decreases row.cells.len() - i,
    {
        cells.push(render_cell(&row.cells[i]));
        i += 1;
    }
    let out = row_new(cells);
    assert(row_content(out) =~= rendered_row(row@));
    out
}

/// Hands a table to the writer.
pub fn render_table(table: &TableNode) -> (out: docx_rs::Table)
    ensures
        table_content(out) == rendered_table(table@),
{
    let mut rows: Vec<docx_rs::TableRow> = Vec::new();
    let mut i: usize = 0;
    while i < table.rows.len()
        invariant
            i <= table.rows.len(),
            rows@.len() == i,
            forall|k: int|
                0 <= k < i ==> row_content(#[trigger] rows@[k]) == rendered_row(
                    table.rows@[k]@,
                ),
        decreases table.rows.len() - i,
    {
        rows.push(render_row(&table.rows[i]));
        i += 1;
    }
    let out = table_align(table_new(rows), table.align);
    assert(table_content(out).rows =~= rendered_table(table@).rows);
    out
}

/// Hands a document to the writer: the margin, then the blocks in their order.
pub fn render(document: &Document) -> (out: docx_rs::Docx)
    ensures
        docx_content(out) == rendered(document@),
{
    let mut out = docx_margin_top(docx_new(), document.margin_top);
    let mut i: usize = 0;
    while i < document.blocks.len()
        invariant
            i <= document.blocks.len(),
            docx_content(out).margin_top == document.margin_top,
            docx_content(out).body == rendered(document@).body.take(i as int),
        decreases document.blocks.len() - i,
    {
        let ghost before = docx_content(out).body;
        match &document.blocks[i] {
            Block::Paragraph(paragraph) => {
                out = docx_add_paragraph(out, render_paragraph(paragraph));
            },
            Block::Table(table) => {
                out = docx_add_table(out, render_table(table));
            },
        }
        assert(docx_content(out).body =~= rendered(document@).body.take(i + 1)) by {
            assert(docx_content(out).body == before.push(
                rendered_block(document.blocks@[i as int]@),
            ));
        }
        i += 1;
    }
    assert(rendered(document@).body.take(i as int) =~= rendered(document@).body);
    out
}

/// What the packager returns for each outcome of the packing: the bytes as they are, or a
/// packaging error with the writer's complaint.
pub open spec fn archive_outcome(archive: Result<Seq<u8>, Seq<char>>) -> Result<
    Seq<u8>,
    ReportErrorView,
> {
    match archive {
        Ok(bytes) => Ok(bytes),
        Err(complaint) => Err(ReportErrorView::PackagingError(complaint)),
    }
}

/// The same, for an outcome of the packing as the writer hands it back.
pub open spec fn packaging_outcome(packed: Result<Vec<u8>, String>) -> Result<
    Seq<u8>,
    ReportErrorView,
> {
    archive_outcome(pack_view(packed))
}

/// The views of the two sides of a packaging result.
pub open spec fn packaged_view(result: Result<Vec<u8>, ReportError>) -> Result<
    Seq<u8>,
    ReportErrorView,
> {
    match result {
        Ok(bytes) => Ok(bytes@),
        Err(error) => Err(error@),
    }
}

/// Whether `outcome` is what the packager returns for `document`: the outcome of packing a
/// document of the writer that holds what `document` renders to.
pub open spec fn is_package_of(
    document: DocumentView,
    outcome: Result<Seq<u8>, ReportErrorView>,
) -> bool {
    exists|docx: docx_rs::Docx|
        docx_content(docx) == rendered(document) && outcome == archive_outcome(
            #[trigger] packed_archive(docx),
        )
}

/// Turns the outcome of the packing into the result of the packager.
pub fn packaging_result(packed: Result<Vec<u8>, String>) -> (result: Result<Vec<u8>, ReportError>)
    ensures
        packaged_view(result) == packaging_outcome(packed),
{
    match packed {
        Ok(bytes) => Ok(bytes),
        Err(complaint) => Err(ReportError::PackagingError(complaint)),
    }
}

/// Packs a document into the bytes of an archive, in memory: renders it, has the writer
/// pack what was rendered, and hands back the bytes, or a packaging error with the writer's
/// complaint.
pub fn package(document: &Document) -> (result: Result<Vec<u8>, ReportError>)
    ensures
        is_package_of(document@, packaged_view(result)),
{
    let docx = render(document);
    let ghost handed = docx;
    let result = packaging_result(docx_pack(docx));
    assert(packaged_view(result) == archive_outcome(packed_archive(handed)));
    result
}

} // verus!
