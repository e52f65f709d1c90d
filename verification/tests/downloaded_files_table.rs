use moxin_frontend::downloaded_files_table::{
    clone_files, files_matching, DownloadedFile, DownloadedFilesTable, MyModelsSearchAction,
    TableRow,
};
use moxin_frontend::list_model::DrawnItem;
use moxin_frontend::pool::{KindTag, ViewHandle};

const DAY: i64 = 86_400_000_000;

fn file(id: &str, name: &str, model: &str, day: i64) -> DownloadedFile {
    DownloadedFile {
        file_id: id.to_string(),
        file_name: name.to_string(),
        file_size: Some("4.08 GB".to_string()),
        model_name: model.to_string(),
        model_architecture: "llama".to_string(),
        model_size: "7B".to_string(),
        downloaded_at: day * DAY,
    }
}

fn store() -> Vec<DownloadedFile> {
    vec![
        file("a", "llama-2-7b-chat.Q4.gguf", "TheBloke/Llama-2-7B", 10),
        file("b", "mistral-7b.gguf", "MistralAI/Mistral", 30),
        file("c", "zephyr.gguf", "HF/Zephyr-Llama", 20),
        file("d", "phi-2.gguf", "Microsoft/Phi", 30),
    ]
}

fn ids(files: &[DownloadedFile]) -> Vec<String> {
    files.iter().map(|f| f.file_id.clone()).collect()
}

fn row_ids(rows: &[TableRow]) -> Vec<String> {
    rows.iter()
        .map(|row| match row {
            TableRow::Header(_) => "header".to_string(),
            TableRow::File(row) => row.file_id.clone(),
        })
        .collect()
}

#[test]
fn new_table_is_empty_and_unfiltered() {
    let table = DownloadedFilesTable::new(100, 10);
    assert!(table.current_results().is_empty());
    assert_eq!(table.latest_store_fetch_len(), 0);
    assert_eq!(table.search_keywords(), None);
    assert_eq!(table.file_of_view(0), None);
}

#[test]
fn draw_empty_store_shows_the_header_only() {
    let mut table = DownloadedFilesTable::new(100, 10);
    let rows = table.draw_walk(&Vec::new(), None);
    assert_eq!(rows.len(), 1);
    match &rows[0] {
        TableRow::Header(view) => {
            assert_eq!(*view, ViewHandle { kind: KindTag::HeaderRow, slot: 0 })
        }
        TableRow::File(_) => panic!("the first row is the header"),
    }
}

#[test]
fn draw_puts_newest_first_and_keeps_ties_in_order() {
    let mut table = DownloadedFilesTable::new(100, 10);
    let rows = table.draw_walk(&store(), None);
    assert_eq!(row_ids(&rows), vec!["header", "b", "d", "c", "a"]);
    assert_eq!(ids(table.current_results()), vec!["b", "d", "c", "a"]);
    assert_eq!(table.latest_store_fetch_len(), 4);
}

#[test]
fn draw_fills_every_field_of_a_row() {
    let mut table = DownloadedFilesTable::new(100, 10);
    let mut files = store();
    files[0].file_size = None;
    files[0].model_architecture = String::new();
    files[0].model_size = String::new();
    let rows = table.draw_walk(&files, Some("a"));
    let TableRow::File(last) = &rows[4] else { panic!("a file row") };
    assert_eq!(last.view, ViewHandle { kind: KindTag::ItemRow, slot: 4 });
    assert_eq!(last.file_id, "a");
    assert!(last.show_resume_button);
    assert_eq!(last.name, "Llama 2 7b .q4");
    assert_eq!(last.base_model, "-");
    assert_eq!(last.parameters, "-");
    assert_eq!(last.version, "TheBloke/Llama-2-7B/llama-2-7b-chat.Q4.gguf");
    assert_eq!(last.file_size, "-");
    assert_eq!(last.date_added, "11/01/1970");
    assert!(last.show_separator);

    let TableRow::File(first) = &rows[1] else { panic!("a file row") };
    assert_eq!(first.file_id, "b");
    assert!(!first.show_resume_button);
    assert_eq!(first.name, "Mistral 7b");
    assert_eq!(first.base_model, "llama");
    assert_eq!(first.parameters, "7B");
    assert_eq!(first.file_size, "4.08 GB");
    assert_eq!(first.date_added, "31/01/1970");
    assert!(!first.show_separator);
}

#[test]
fn draw_remembers_the_file_of_each_view() {
    let mut table = DownloadedFilesTable::new(100, 10);
    let rows = table.draw_walk(&store(), None);
    for row in &rows {
        match row {
            TableRow::Header(view) => assert_eq!(table.file_of_view(view.slot), None),
            TableRow::File(row) => {
                assert_eq!(table.file_of_view(row.view.slot), Some(row.file_id.clone()))
            }
        }
    }
    assert_eq!(table.file_of_view(99), None);
    // The next pass forgets rows it does not draw.
    table.set_viewport_extent(20, 10);
    let fewer = table.draw_walk(&store(), None);
    assert_eq!(row_ids(&fewer), vec!["header", "b"]);
    assert_eq!(table.file_of_view(1), Some("b".to_string()));
    assert_eq!(table.file_of_view(2), None);
}

#[test]
fn draw_only_the_visible_rows() {
    let mut table = DownloadedFilesTable::new(30, 10);
    let files: Vec<DownloadedFile> =
        (0..20).map(|i| file(&format!("f{}", i), "n.gguf", "m", 100 - i)).collect();
    let rows = table.draw_walk(&files, None);
    assert_eq!(row_ids(&rows), vec!["header", "f0", "f1"]);
}

#[test]
fn filter_keeps_files_that_mention_the_keywords() {
    let mut table = DownloadedFilesTable::new(100, 10);
    assert!(table.filter_by_keywords(&store(), "LLAMA"));
    assert_eq!(ids(table.current_results()), vec!["a", "c"]);
    assert_eq!(table.search_keywords(), Some("llama".to_string()));
    assert_eq!(table.latest_store_fetch_len(), 4);

    assert!(table.filter_by_keywords(&store(), "nothing-like-it"));
    assert!(table.current_results().is_empty());

    assert!(table.filter_by_keywords(&store(), ""));
    assert_eq!(ids(table.current_results()), vec!["a", "b", "c", "d"]);
}

#[test]
fn filtered_table_is_narrowed_anew_in_every_pass() {
    let mut table = DownloadedFilesTable::new(100, 10);
    let mut files = store();
    table.filter_by_keywords(&files, "Mistral");
    let rows = table.draw_walk(&files, None);
    assert_eq!(row_ids(&rows), vec!["header", "b"]);

    // Same number of files, other content: the rows follow the store.
    files[1].file_name = "renamed.gguf".to_string();
    files[1].model_name = "renamed".to_string();
    files[3].model_name = "MistralAI/other".to_string();
    let rows = table.draw_walk(&files, None);
    assert_eq!(row_ids(&rows), vec!["header", "d"]);
    assert_eq!(ids(table.current_results()), vec!["d"]);

    files.push(file("e", "Mistral-Large.gguf", "x", 5));
    let rows = table.draw_walk(&files, None);
    assert_eq!(row_ids(&rows), vec!["header", "d", "e"]);
    assert_eq!(table.latest_store_fetch_len(), 5);
    assert_eq!(table.search_keywords(), Some("mistral".to_string()));
}

#[test]
fn filtered_table_does_not_keep_files_that_left_the_store() {
    let mut table = DownloadedFilesTable::new(100, 10);
    let first = vec![file("old", "llama.gguf", "m", 1)];
    table.filter_by_keywords(&first, "llama");
    assert_eq!(ids(table.current_results()), vec!["old"]);
    let second = vec![file("new", "llama-3.gguf", "m", 2)];
    assert_eq!(row_ids(&table.draw_walk(&second, None)), vec!["header", "new"]);
    table.begin_pass(&first);
    assert_eq!(ids(table.current_results()), vec!["old"]);
    table.refresh_results(&Vec::new());
    assert!(table.current_results().is_empty());
}

#[test]
fn reset_shows_all_files_again() {
    let mut table = DownloadedFilesTable::new(100, 10);
    table.filter_by_keywords(&store(), "phi");
    assert_eq!(ids(table.current_results()), vec!["d"]);
    assert!(table.reset_results(&store()));
    assert_eq!(ids(table.current_results()), vec!["a", "b", "c", "d"]);
    assert_eq!(table.search_keywords(), None);
}

#[test]
fn search_actions_are_taken_in_order() {
    let mut table = DownloadedFilesTable::new(100, 10);
    let actions = vec![
        MyModelsSearchAction::Reset,
        MyModelsSearchAction::Other,
        MyModelsSearchAction::Search("Zephyr".to_string()),
    ];
    assert!(table.handle_actions(&actions, &store()));
    assert_eq!(ids(table.current_results()), vec!["c"]);
    assert_eq!(table.search_keywords(), Some("zephyr".to_string()));

    assert!(!table.handle_actions(&vec![MyModelsSearchAction::Other], &store()));
    assert!(!table.handle_actions(&Vec::new(), &store()));
    assert_eq!(ids(table.current_results()), vec!["c"]);

    let back = vec![MyModelsSearchAction::Search("phi".to_string()), MyModelsSearchAction::Reset];
    assert!(table.handle_actions(&back, &store()));
    assert_eq!(table.current_results().len(), 4);
}

#[test]
fn fetch_takes_the_store_as_it_is() {
    let mut table = DownloadedFilesTable::new(100, 10);
    table.fetch_results(&store());
    assert_eq!(ids(table.current_results()), vec!["a", "b", "c", "d"]);
    assert_eq!(table.latest_store_fetch_len(), 4);
}

#[test]
fn files_matching_looks_at_file_and_model_names() {
    let found = files_matching(&store(), "llama");
    assert_eq!(ids(&found), vec!["a", "c"]);
    // The keywords are taken as they are: upper case finds nothing.
    assert!(files_matching(&store(), "LLAMA").is_empty());
}

#[test]
fn clone_files_copies_every_field() {
    let files = store();
    let copy = clone_files(&files);
    assert_eq!(copy.len(), 4);
    for (one, other) in files.iter().zip(copy.iter()) {
        assert_eq!(one.file_id, other.file_id);
        assert_eq!(one.file_name, other.file_name);
        assert_eq!(one.file_size, other.file_size);
        assert_eq!(one.model_name, other.model_name);
        assert_eq!(one.model_architecture, other.model_architecture);
        assert_eq!(one.model_size, other.model_size);
        assert_eq!(one.downloaded_at, other.downloaded_at);
    }
}

#[test]
fn kinds_are_header_then_rows() {
    assert_eq!(DownloadedFilesTable::kinds_of(0), vec![KindTag::HeaderRow]);
    assert_eq!(
        DownloadedFilesTable::kinds_of(2),
        vec![KindTag::HeaderRow, KindTag::ItemRow, KindTag::ItemRow]
    );
}

#[test]
fn row_for_compares_the_current_file_by_id() {
    let item = DrawnItem { index: 1, view: ViewHandle { kind: KindTag::ItemRow, slot: 3 } };
    let f = file("id-1", "x.gguf", "m", 0);
    assert!(DownloadedFilesTable::row_for(item, &f, Some("id-1")).show_resume_button);
    assert!(!DownloadedFilesTable::row_for(item, &f, Some("id-2")).show_resume_button);
    assert!(!DownloadedFilesTable::row_for(item, &f, None).show_resume_button);
}

#[test]
fn refresh_sorts_and_forgets_the_views() {
    let mut table = DownloadedFilesTable::new(100, 10);
    table.draw_walk(&store(), None);
    assert!(table.file_of_view(1).is_some());
    table.refresh_results(&store());
    assert_eq!(ids(table.current_results()), vec!["b", "d", "c", "a"]);
    assert_eq!(table.file_of_view(1), None);
}

#[test]
fn host_driven_table_pass_draws_what_the_host_asks_for() {
    let mut table = DownloadedFilesTable::new(20, 10);
    table.begin_pass(&store());
    assert_eq!(table.list().item_count(), 5);

    let last = table.draw_item(4, Some("a")).unwrap();
    let TableRow::File(last) = last else { panic!("a file row") };
    assert_eq!(last.file_id, "a");
    assert!(last.show_resume_button);
    assert!(last.show_separator);
    assert_eq!(table.file_of_view(last.view.slot), Some("a".to_string()));

    let TableRow::Header(header) = table.draw_item(0, None).unwrap() else {
        panic!("the header")
    };
    assert_eq!(header.kind, KindTag::HeaderRow);
    assert_eq!(table.file_of_view(header.slot), None);

    let TableRow::File(first) = table.draw_item(1, None).unwrap() else { panic!("a file row") };
    assert_eq!(first.file_id, "b");
    assert!(!first.show_separator);

    assert!(table.draw_item(5, None).is_none());
    assert!(table.draw_item(usize::MAX, None).is_none());
}
