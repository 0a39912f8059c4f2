use report_generator::builder::{
    build_document, comment_section, key_value_table, sign_off_table, signal_table,
};
use report_generator::document::{
    Alignment, Block, CellNode, Document, ParagraphNode, RowNode, TableNode, TextRun,
};
use report_generator::models::{MonitoringHistoryItem, MonitoringReportData};
use report_generator::style::{
    blank_paragraph, data_cell, header_cell, style, Role, CELL_WIDTH, COMMENT_FONT_SIZE,
    FONT_FAMILY, FONT_SIZE, HEADER_FILL, PAGE_MARGIN_TOP,
};

fn record() -> MonitoringReportData {
    MonitoringReportData {
        account_inn: "7701234567".to_string(),
        account_name: "Romashka LLC".to_string(),
        industry: "Retail".to_string(),
        business_segment_label: "SME".to_string(),
        signal_name: "Late payments".to_string(),
        description: Some("Line A\nLine B\n\n".to_string()),
        created_by: Some("Ivanov".to_string()),
        date_status: "2023-12-31".to_string(),
        monitoring_results_history: Some(vec![MonitoringHistoryItem {
            date_status: "2023-11-30".to_string(),
            status_signal_label: "Open".to_string(),
            description: None,
        }]),
    }
}

fn bold(text: &str, align: Alignment) -> ParagraphNode {
    ParagraphNode {
        run: TextRun {
            text: text.to_string(),
            bold: true,
            italic: false,
            size: Some(24),
            font: Some("Arial".to_string()),
        },
        align: Some(align),
    }
}

fn comment(text: &str) -> Block {
    Block::Paragraph(ParagraphNode {
        run: TextRun {
            text: text.to_string(),
            bold: false,
            italic: true,
            size: Some(20),
            font: Some("Arial".to_string()),
        },
        align: Some(Alignment::Right),
    })
}

fn blank() -> Block {
    Block::Paragraph(ParagraphNode {
        run: TextRun { text: String::new(), bold: false, italic: false, size: None, font: None },
        align: None,
    })
}

fn label(text: &str) -> CellNode {
    CellNode {
        paragraph: bold(text, Alignment::Left),
        fill: Some("7DCEA0".to_string()),
        width: 4320,
    }
}

fn value(text: &str) -> CellNode {
    CellNode { paragraph: bold(text, Alignment::Left), fill: None, width: 4320 }
}

fn table(rows: Vec<(CellNode, CellNode)>) -> Block {
    Block::Table(TableNode {
        rows: rows.into_iter().map(|(a, b)| RowNode { cells: vec![a, b] }).collect(),
        align: Alignment::Center,
    })
}

fn key_values() -> Block {
    table(vec![
        (label("ИНН"), value("7701234567")),
        (label("Наименование контрагента"), value("Romashka LLC")),
        (label("Скоринг"), value("")),
        (label("Отрасль"), value("Retail")),
        (label("Сегмент"), value("SME")),
        (label("Принадлежность к группе"), value("")),
    ])
}

fn sign_off(author: &str, date: &str) -> Block {
    table(vec![
        (label("Employee"), label("Date prepared")),
        (value(author), value(date)),
    ])
}

fn expected(comments: Vec<Block>, author: &str, date: &str) -> Document {
    let mut blocks = vec![
        Block::Paragraph(bold("Отчет о результатах мониторинга контрагента", Alignment::Center)),
        blank(),
        key_values(),
        blank(),
        blank(),
        table(vec![(label("Выявленный риск-сигнал"), value("Late payments"))]),
        blank(),
        blank(),
        Block::Paragraph(bold("Comments:", Alignment::Left)),
        blank(),
    ];
    blocks.extend(comments);
    for _ in 0..25 {
        blocks.push(blank());
    }
    blocks.push(sign_off(author, date));
    Document { margin_top: 851, blocks }
}

fn rows_of(block: &Block) -> &Vec<RowNode> {
    match block {
        Block::Table(table) => &table.rows,
        Block::Paragraph(_) => panic!("a table was expected"),
    }
}

#[test]
fn registry_holds_the_fixed_values() {
    assert_eq!(HEADER_FILL, "7DCEA0");
    assert_eq!(FONT_FAMILY, "Arial");
    assert_eq!(FONT_SIZE, 24);
    assert_eq!(COMMENT_FONT_SIZE, 20);
    assert_eq!(COMMENT_FONT_SIZE + 4, FONT_SIZE);
    assert_eq!(CELL_WIDTH, 4320);
    assert_eq!(PAGE_MARGIN_TOP, 851);
}

#[test]
fn style_gives_each_role_its_look() {
    assert_eq!(style("x", Role::Header), bold("x", Alignment::Left));
    assert_eq!(style("x", Role::Data), bold("x", Alignment::Left));
    assert_eq!(style("x", Role::Title), bold("x", Alignment::Center));
    assert_eq!(Block::Paragraph(style("x", Role::CommentDefault)), comment("x"));
    assert_eq!(Block::Paragraph(blank_paragraph()), blank());
}

#[test]
fn cells_have_the_fixed_width_and_only_headers_are_filled() {
    assert_eq!(header_cell("k"), label("k"));
    assert_eq!(data_cell("v"), value("v"));
    assert_eq!(header_cell("k").width, 4320);
    assert_eq!(data_cell("v").fill, None);
}

#[test]
fn described_record_gives_the_whole_tree() {
    let document = build_document(&record(), "2024-01-01");
    assert_eq!(
        document,
        expected(vec![comment("Line A"), comment("Line B")], "Ivanov", "2024-01-01")
    );
}

#[test]
fn description_of_two_lines_gives_two_comment_paragraphs() {
    let document = build_document(&record(), "2024-01-01");
    assert_eq!(document.blocks.len(), 10 + 2 + 25 + 1);
    assert_eq!(document.blocks[10], comment("Line A"));
    assert_eq!(document.blocks[11], comment("Line B"));
    assert_eq!(document.blocks[12], blank());
    assert_eq!(
        comment_section(&Some("Line A\nLine B\n\n".to_string())),
        vec!["Line A", "Line B"]
    );
}

#[test]
fn no_description_gives_the_five_default_prompts() {
    let mut data = record();
    data.description = None;
    let document = build_document(&data, "2024-01-01");
    let prompts = vec![
        comment("Описание риска"),
        comment("История и причины возникновения"),
        comment("Комментарии клиентского менеджера"),
        comment("Перспективы закрытия риск-сигнала"),
        comment("Прочие комментарии"),
    ];
    assert_eq!(document.blocks.len(), 10 + 5 + 25 + 1);
    assert_eq!(&document.blocks[10..15], &prompts[..]);
    assert_eq!(document, expected(prompts, "Ivanov", "2024-01-01"));
    assert_eq!(
        comment_section(&None),
        vec![
            "Описание риска",
            "История и причины возникновения",
            "Комментарии клиентского менеджера",
            "Перспективы закрытия риск-сигнала",
            "Прочие комментарии",
        ]
    );
}

#[test]
fn blank_description_gives_no_comment_paragraph() {
    let mut data = record();
    data.description = Some(" \n\n".to_string());
    let document = build_document(&data, "2024-01-01");
    assert_eq!(document, expected(vec![], "Ivanov", "2024-01-01"));
}

#[test]
fn missing_author_shows_the_placeholder() {
    let mut data = record();
    data.created_by = None;
    let document = build_document(&data, "2024-01-01");
    let rows = rows_of(document.blocks.last().unwrap());
    assert_eq!(rows.len(), 2);
    assert_eq!(rows[1].cells[0], value("Not specified"));
    assert_eq!(rows[1].cells[1], value("2024-01-01"));
    assert_eq!(sign_off_table(&None, "2024-01-01"), sign_off("Not specified", "2024-01-01"));
}

#[test]
fn named_author_is_shown() {
    let document = build_document(&record(), "2024-01-01");
    let rows = rows_of(document.blocks.last().unwrap());
    assert_eq!(rows[0].cells, vec![label("Employee"), label("Date prepared")]);
    assert_eq!(rows[1].cells[0], value("Ivanov"));
    assert_eq!(
        sign_off_table(&Some("Ivanov".to_string()), "2024-01-01"),
        sign_off("Ivanov", "2024-01-01")
    );
}

#[test]
fn tables_keep_their_shape_whatever_the_record_holds() {
    let empty = MonitoringReportData {
        account_inn: String::new(),
        account_name: String::new(),
        industry: String::new(),
        business_segment_label: String::new(),
        signal_name: String::new(),
        description: None,
        created_by: None,
        date_status: String::new(),
        monitoring_results_history: None,
    };
    for data in [record(), empty] {
        let document = build_document(&data, "2024-01-01");
        assert_eq!(rows_of(&document.blocks[2]).len(), 6);
        assert_eq!(rows_of(&document.blocks[5]).len(), 1);
        for row in rows_of(&document.blocks[2]).iter().chain(rows_of(&document.blocks[5])) {
            assert_eq!(row.cells.len(), 2);
        }
    }
}

#[test]
fn key_value_table_pairs_labels_with_the_record() {
    assert_eq!(key_value_table(&record()), key_values());
    let block = key_value_table(&record());
    let rows = rows_of(&block);
    assert_eq!(rows[2].cells[1].paragraph.run.text, "");
    assert_eq!(rows[5].cells[1].paragraph.run.text, "");
    assert_eq!(rows[4].cells[1].paragraph.run.text, "SME");
}

#[test]
fn signal_table_shows_the_signal() {
    assert_eq!(
        signal_table(&record()),
        table(vec![(label("Выявленный риск-сигнал"), value("Late payments"))])
    );
}

#[test]
fn padding_is_twenty_five_blank_paragraphs() {
    let document = build_document(&record(), "2024-01-01");
    let padding = &document.blocks[12..37];
    assert_eq!(padding.len(), 25);
    assert!(padding.iter().all(|block| *block == blank()));
    assert!(matches!(document.blocks[37], Block::Table(_)));
}

#[test]
fn history_is_not_shown() {
    let with = build_document(&record(), "2024-01-01");
    let mut data = record();
    data.monitoring_results_history = None;
    data.date_status = "1999-01-01".to_string();
    assert_eq!(build_document(&data, "2024-01-01"), with);
}

#[test]
fn building_twice_gives_the_same_tree() {
    assert_eq!(build_document(&record(), "2024-01-01"), build_document(&record(), "2024-01-01"));
}
