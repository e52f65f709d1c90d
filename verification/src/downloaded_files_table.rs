//! The table of downloaded files: a header row and one row per file, newest
//! first, optionally narrowed to the files that mention the search keywords.

use std::cmp::Ordering;
use std::collections::HashMap;
use vstd::prelude::*;
use vstd::string::StringExecFns;
use crate::coordinator::VirtualizedListCoordinator;
use crate::list_model::{pass_item, pass_state, visible, DrawnItem, ListModel};
use crate::pool::{resolved_slot, KindTag, ViewHandle};
use crate::text::{
    added_date, dash_if_empty, day_month_year, has_substring, human_readable_name, lowercase_of,
    mentions, or_dash, readable_name, slash_join, slash_joined, to_lowercase, written_instant,
};

verus! {

broadcast use vstd::std_specs::hash::group_hash_axioms;

/// What the table reads of one downloaded file.
pub struct DownloadedFile {
    pub file_id: String,
    pub file_name: String,
    /// The file's size as it is to be shown, where it could be worked out.
    pub file_size: Option<String>,
    pub model_name: String,
    pub model_architecture: String,
    pub model_size: String,
    /// When the file was downloaded, in microseconds after the Unix epoch.
    pub downloaded_at: i64,
}

/// A downloaded file as plain values.
pub struct FileRecord {
    pub file_id: Seq<char>,
    pub file_name: Seq<char>,
    pub file_size: Option<Seq<char>>,
    pub model_name: Seq<char>,
    pub model_architecture: Seq<char>,
    pub model_size: Seq<char>,
    pub downloaded_at: i64,
}

impl View for DownloadedFile {
    type V = FileRecord;

    open spec fn view(&self) -> FileRecord {
        FileRecord {
            file_id: self.file_id@,
            file_name: self.file_name@,
            file_size: match self.file_size {
                Some(size) => Some(size@),
                None => None,
            },
            model_name: self.model_name@,
            model_architecture: self.model_architecture@,
            model_size: self.model_size@,
            downloaded_at: self.downloaded_at,
        }
    }
}

impl Clone for DownloadedFile {
    fn clone(&self) -> (copy: Self)
        ensures
            copy@ == self@,
    {
        DownloadedFile {
            file_id: self.file_id.clone(),
            file_name: self.file_name.clone(),
            file_size: match &self.file_size {
                Some(size) => Some(size.clone()),
                None => None,
            },
            model_name: self.model_name.clone(),
            model_architecture: self.model_architecture.clone(),
            model_size: self.model_size.clone(),
            downloaded_at: self.downloaded_at,
        }
    }
}

/// Whether the table shows all files or those that mention some keywords.
pub enum SearchStatus {
    Idle,
    Filtered(String),
}

/// A search action that concerns the table.
pub enum MyModelsSearchAction {
    Search(String),
    Reset,
    Other,
}

/// One file's row as it is to be drawn. Every field is set anew in every pass.
pub struct FileRow {
    pub view: ViewHandle,
    pub file_id: String,
    pub show_resume_button: bool,
    pub name: String,
    pub base_model: String,
    pub parameters: String,
    pub version: String,
    pub file_size: String,
    pub date_added: String,
    pub show_separator: bool,
}

/// One row of the table as it is to be drawn.
pub enum TableRow {
    Header(ViewHandle),
    File(FileRow),
}

/// The state of the table.
pub struct TableModel {
    pub list: ListModel,
    /// The view instance of each file row of the last pass, by slot, with the
    /// id of its file.
    pub file_item_map: Map<u64, Seq<char>>,
    pub current_results: Seq<FileRecord>,
    pub latest_store_fetch_len: usize,
    /// The keywords in force, if the table is narrowed.
    pub search: Option<Seq<char>>,
}

/// The files as plain values.
pub open spec fn records(files: Seq<DownloadedFile>) -> Seq<FileRecord> {
    files.map_values(|file: DownloadedFile| file@)
}

/// The file's name or its model's name holds the keywords, case ignored in
/// the names.
pub open spec fn file_mentions(file: FileRecord, keywords: Seq<char>) -> bool {
    has_substring(lowercase_of(file.file_name), keywords) || has_substring(
        lowercase_of(file.model_name),
        keywords,
    )
}

/// The files that mention the keywords, in their order.
pub open spec fn matching(files: Seq<FileRecord>, keywords: Seq<char>) -> Seq<FileRecord>
    decreases files.len(),
{
    if files.len() == 0 {
        files
    } else if file_mentions(files.last(), keywords) {
        matching(files.drop_last(), keywords).push(files.last())
    } else {
        matching(files.drop_last(), keywords)
    }
}

/// No file stands before one that was downloaded later.
pub open spec fn newest_first(files: Seq<FileRecord>) -> bool {
    forall|i: int, j: int|
        0 <= i < j < files.len() ==> (#[trigger] files[i]).downloaded_at >= (
        #[trigger] files[j]).downloaded_at
}

/// Some file of the arrangement is taken from `place`.
pub open spec fn takes_from(from: Seq<int>, place: int) -> bool {
    exists|i: int| 0 <= i < from.len() && #[trigger] from[i] == place
}

/// `after` holds the files of `before`, each of them once and none besides,
/// the file at `i` taken from `from[i]`, and files of the same instant in the
/// order they had.
pub open spec fn rearranges(before: Seq<FileRecord>, after: Seq<FileRecord>, from: Seq<int>) -> bool {
    &&& from.len() == after.len()
    &&& after.len() == before.len()
    &&& forall|i: int|
        0 <= i < after.len() ==> 0 <= #[trigger] from[i] < before.len() && after[i]
            == before[from[i]]
    &&& forall|i: int, j: int|
        0 <= i < j < after.len() ==> #[trigger] from[i] != #[trigger] from[j]
    &&& forall|place: int| 0 <= place < before.len() ==> #[trigger] takes_from(from, place)
    &&& forall|i: int, j: int|
        0 <= i < j < after.len() && after[i].downloaded_at == after[j].downloaded_at
            ==> #[trigger] from[i] < #[trigger] from[j]
}

/// `after` is `before` in the table's order: newest first, and files of the
/// same instant as they stood.
pub open spec fn sorted_newest_first(before: Seq<FileRecord>, after: Seq<FileRecord>) -> bool {
    newest_first(after) && exists|from: Seq<int>| rearranges(before, after, from)
}

/// The file at `one` stands before the file at `other` in the table's order.
pub open spec fn stands_before(files: Seq<FileRecord>, one: int, other: int) -> bool {
    files[one].downloaded_at > files[other].downloaded_at || (files[one].downloaded_at
        == files[other].downloaded_at && one < other)
}

/// In an arrangement that is newest first, the places that the files were
/// taken from follow the table's order.
proof fn lemma_sources_in_order(
    before: Seq<FileRecord>,
    after: Seq<FileRecord>,
    from: Seq<int>,
    i: int,
    j: int,
)
    requires
        newest_first(after),
        rearranges(before, after, from),
        0 <= i < j < after.len(),
    ensures
        stands_before(before, from[i], from[j]),
{
    assert(after[i] == before[from[i]]);
    assert(after[j] == before[from[j]]);
    assert(after[i].downloaded_at >= after[j].downloaded_at);
}

/// Two arrangements in the table's order take the file of every place up to
/// `upto` from the same place.
proof fn lemma_same_sources(
    before: Seq<FileRecord>,
    one: Seq<FileRecord>,
    other: Seq<FileRecord>,
    from_one: Seq<int>,
    from_other: Seq<int>,
    upto: int,
)
    requires
        newest_first(one),
        newest_first(other),
        rearranges(before, one, from_one),
        rearranges(before, other, from_other),
        0 <= upto <= before.len(),
    ensures
        forall|i: int| 0 <= i < upto ==> from_one[i] == from_other[i],
    decreases upto,
{
    if upto > 0 {
        let i = upto - 1;
        lemma_same_sources(before, one, other, from_one, from_other, i);
        let p = from_one[i];
        let q = from_other[i];
        if p != q {
            if stands_before(before, p, q) {
                assert(takes_from(from_other, p));
                let k = choose|k: int| 0 <= k < from_other.len() && #[trigger] from_other[k] == p;
                if k < i {
                    assert(from_one[k] == from_other[k]);
                    assert(from_one[k] != from_one[i]);
                } else if k > i {
                    lemma_sources_in_order(before, other, from_other, i, k);
                }
            } else {
                assert(stands_before(before, q, p));
                assert(takes_from(from_one, q));
                let k = choose|k: int| 0 <= k < from_one.len() && #[trigger] from_one[k] == q;
                if k < i {
                    assert(from_one[k] == from_other[k]);
                    assert(from_other[k] != from_other[i]);
                } else if k > i {
                    lemma_sources_in_order(before, one, from_one, i, k);
                }
            }
        }
    }
}

/// The table's order is determined: files have one arrangement that is
/// newest first and keeps files of the same instant as they stood.
pub proof fn lemma_table_order_is_unique(
    before: Seq<FileRecord>,
    one: Seq<FileRecord>,
    other: Seq<FileRecord>,
)
    requires
        sorted_newest_first(before, one),
        sorted_newest_first(before, other),
    ensures
        one == other,
{
    let from_one = choose|from: Seq<int>| rearranges(before, one, from);
    let from_other = choose|from: Seq<int>| rearranges(before, other, from);
    lemma_same_sources(before, one, other, from_one, from_other, before.len() as int);
    assert forall|i: int| 0 <= i < one.len() implies one[i] == other[i] by {
        assert(from_one[i] == from_other[i]);
        assert(one[i] == before[from_one[i]]);
        assert(other[i] == before[from_other[i]]);
    }
    assert(one =~= other);
}

/// The files that a pass draws from depend on the store as it is and on the
/// keywords in force, and on nothing that an earlier pass or fetch left in the
/// table: two tables with the same keywords come to the same files, in the
/// same order.
pub proof fn lemma_pass_reads_the_store_only(
    one: TableModel,
    other: TableModel,
    store: Seq<FileRecord>,
    files_of_one: Seq<FileRecord>,
    files_of_other: Seq<FileRecord>,
)
    requires
        one.search == other.search,
        sorted_newest_first(one.refreshed(store).current_results, files_of_one),
        sorted_newest_first(other.refreshed(store).current_results, files_of_other),
    ensures
        files_of_one == files_of_other,
{
    lemma_table_order_is_unique(one.refreshed(store).current_results, files_of_one, files_of_other);
}

/// The template of each row: the header, then one row per file.
pub open spec fn row_kinds(files: nat) -> Seq<KindTag> {
    Seq::new(
        files + 1,
        |i: int|
            if i == 0 {
                KindTag::HeaderRow
            } else {
                KindTag::ItemRow
            },
    )
}

/// The template of the row at `index`.
pub open spec fn row_kind(index: usize) -> KindTag {
    if index == 0 {
        KindTag::HeaderRow
    } else {
        KindTag::ItemRow
    }
}

/// How many rows a table of `files` files has, as far as they can be counted.
pub open spec fn row_count(files: nat) -> usize {
    if files < usize::MAX {
        (files + 1) as usize
    } else {
        usize::MAX
    }
}

/// A dash in place of an empty text.
pub open spec fn dashed(text: Seq<char>) -> Seq<char> {
    if text.len() == 0 {
        "-"@
    } else {
        text
    }
}

/// `row` is what is drawn for `file` at `item`, given the file of the
/// current chat.
pub open spec fn file_row_shows(
    row: FileRow,
    item: DrawnItem,
    file: FileRecord,
    current: Option<Seq<char>>,
) -> bool {
    &&& row.view == item.view
    &&& row.file_id@ == file.file_id
    &&& row.show_resume_button == (current == Some(file.file_id))
    &&& row.name@ == readable_name(file.file_name)
    &&& row.base_model@ == dashed(file.model_architecture)
    &&& row.parameters@ == dashed(file.model_size)
    &&& row.version@ == slash_joined(file.model_name, file.file_name)
    &&& row.file_size@ == match file.file_size {
        Some(size) => size,
        None => "-"@,
    }
    &&& row.date_added@ == match written_instant(file.downloaded_at, day_month_year()) {
        Some(date) => date,
        None => "-"@,
    }
    &&& row.show_separator == (item.index != 1)
}

/// `row` is what is drawn at `item`: the header at index zero, and below it
/// the file one place up in `files`.
pub open spec fn row_shows(
    row: TableRow,
    item: DrawnItem,
    files: Seq<FileRecord>,
    current: Option<Seq<char>>,
) -> bool {
    match row {
        TableRow::Header(view) => item.index == 0 && view == item.view,
        TableRow::File(row) => 0 < item.index <= files.len() && file_row_shows(
            row,
            item,
            files[item.index - 1],
            current,
        ),
    }
}

/// The view instances of the file rows, by slot, each with the id of its
/// file.
pub open spec fn files_by_view(rows: Seq<TableRow>) -> Map<u64, Seq<char>>
    decreases rows.len(),
{
    if rows.len() == 0 {
        Map::empty()
    } else {
        match rows.last() {
            TableRow::Header(_) => files_by_view(rows.drop_last()),
            TableRow::File(row) => files_by_view(rows.drop_last()).insert(
                row.view.slot as u64,
                row.file_id@,
            ),
        }
    }
}

impl TableModel {
    /// All files of the store are fetched.
    pub open spec fn fetched(self, store: Seq<FileRecord>) -> TableModel {
        TableModel {
            current_results: store,
            latest_store_fetch_len: store.len() as usize,
            ..self
        }
    }

    /// The files of the store are narrowed to those that mention the
    /// keywords in lower case.
    pub open spec fn filtered(self, store: Seq<FileRecord>, keywords: Seq<char>) -> TableModel {
        TableModel {
            current_results: matching(store, lowercase_of(keywords)),
            latest_store_fetch_len: store.len() as usize,
            search: Some(lowercase_of(keywords)),
            ..self
        }
    }

    /// The narrowing is lifted.
    pub open spec fn reset(self, store: Seq<FileRecord>) -> TableModel {
        TableModel { current_results: store, search: None, ..self }
    }

    /// The table after one search action.
    pub open spec fn after_action(
        self,
        action: MyModelsSearchAction,
        store: Seq<FileRecord>,
    ) -> TableModel {
        match action {
            MyModelsSearchAction::Search(keywords) => self.filtered(store, keywords@),
            MyModelsSearchAction::Reset => self.reset(store),
            MyModelsSearchAction::Other => self,
        }
    }

    /// The table after a run of search actions.
    pub open spec fn after_actions(
        self,
        actions: Seq<MyModelsSearchAction>,
        store: Seq<FileRecord>,
    ) -> TableModel
        decreases actions.len(),
    {
        if actions.len() == 0 {
            self
        } else {
            self.after_actions(actions.drop_last(), store).after_action(actions.last(), store)
        }
    }

    /// The table with its results brought up to the store, as every pass
    /// does before it draws: the files of the store as it is now, all of them
    /// or, while keywords narrow the table, those that mention the keywords
    /// as they were set. Nothing of the results of an earlier pass is kept.
    pub open spec fn refreshed(self, store: Seq<FileRecord>) -> TableModel {
        TableModel {
            current_results: match self.search {
                Some(keywords) => matching(store, keywords),
                None => store,
            },
            latest_store_fetch_len: store.len() as usize,
            ..self
        }
    }
}

/// How two files stand in the table's order: the one downloaded later comes
/// first.
pub fn newest_first_order(one: &DownloadedFile, other: &DownloadedFile) -> (order: Ordering)
    ensures
        order == if one.downloaded_at > other.downloaded_at {
            Ordering::Less
        } else if one.downloaded_at == other.downloaded_at {
            Ordering::Equal
        } else {
            Ordering::Greater
        },
{
    if one.downloaded_at > other.downloaded_at {
        Ordering::Less
    } else if one.downloaded_at == other.downloaded_at {
        Ordering::Equal
    } else {
        Ordering::Greater
    }
}

/// Calls `slice::sort_by` with `newest_first_order`. Trusted: the standard
/// library's sort is stable and leaves the same elements, ordered as the
/// comparison says.
#[verifier::external_body]
fn sort_newest_first(files: &mut Vec<DownloadedFile>)
    ensures
        sorted_newest_first(records(old(files)@), records(final(files)@)),
{
    files.sort_by(|one, other| newest_first_order(one, other));
}

/// The table of downloaded files.
pub struct DownloadedFilesTable {
    list: VirtualizedListCoordinator,
    file_item_map: HashMap<u64, String>,
    current_results: Vec<DownloadedFile>,
    latest_store_fetch_len: usize,
    search_status: SearchStatus,
}

impl View for DownloadedFilesTable {
    type V = TableModel;

    closed spec fn view(&self) -> TableModel {
        TableModel {
            list: self.list@,
            file_item_map: self.file_item_map@.map_values(|id: String| id@),
            current_results: records(self.current_results@),
            latest_store_fetch_len: self.latest_store_fetch_len,
            search: match self.search_status {
                SearchStatus::Idle => None,
                SearchStatus::Filtered(keywords) => Some(keywords@),
            },
        }
    }
}

/// Copies the files.
pub fn clone_files(files: &Vec<DownloadedFile>) -> (copy: Vec<DownloadedFile>)
    ensures
        records(copy@) == records(files@),
{
    let mut copy: Vec<DownloadedFile> = Vec::new();
    let mut i: usize = 0;
    while i < files.len()
        invariant
            i <= files.len(),
            copy@.len() == i,
            forall|k: int| 0 <= k < i ==> (#[trigger] copy@[k])@ == files@[k]@,
        decreases files.len() - i,
    {
        copy.push(files[i].clone());
        i += 1;
    }
    assert(records(copy@) =~= records(files@));
    copy
}

/// The files that mention the keywords, in their order. The keywords are
/// taken as they are.
pub fn files_matching(files: &Vec<DownloadedFile>, keywords: &str) -> (found: Vec<DownloadedFile>)
    ensures
        records(found@) == matching(records(files@), keywords@),
{
    let mut found: Vec<DownloadedFile> = Vec::new();
    let mut i: usize = 0;
    while i < files.len()
        invariant
            i <= files.len(),
            records(found@) == matching(records(files@).take(i as int), keywords@),
        decreases files.len() - i,
    {
        let file = &files[i];
        let ghost upto = records(files@).take(i + 1);
        proof {
            assert(upto.drop_last() =~= records(files@).take(i as int));
            assert(upto.last() == file@);
        }
        if mentions(file.file_name.as_str(), keywords) || mentions(
            file.model_name.as_str(),
            keywords,
        ) {
            let ghost before = found@;
            found.push(file.clone());
            assert(records(found@) =~= records(before).push(file@));
        }
        i += 1;
    }
    assert(records(files@).take(files.len() as int) =~= records(files@));
    found
}

impl DownloadedFilesTable {
    /// The table's invariant: that of its list.
    pub open spec fn wf(&self) -> bool {
        self@.list.wf()
    }

    /// An empty table that shows all files, over a list with the given
    /// geometry.
    pub fn new(extent: u32, row_extent: u32) -> (table: Self)
        ensures
            table.wf(),
            table@ == (TableModel {
                list: ListModel::initial(extent, row_extent, 0, 0),
                file_item_map: Map::empty(),
                current_results: Seq::empty(),
                latest_store_fetch_len: 0,
                search: None,
            }),
    {
        let table = DownloadedFilesTable {
            list: VirtualizedListCoordinator::new(extent, row_extent, 0, 0),
            file_item_map: HashMap::new(),
            current_results: Vec::new(),
            latest_store_fetch_len: 0,
            search_status: SearchStatus::Idle,
        };
        assert(table@.file_item_map =~= Map::empty());
        assert(table@.current_results =~= Seq::empty());
        table
    }

    /// The list of the table's rows.
    pub fn list(&self) -> (list: &VirtualizedListCoordinator)
        ensures
            list@ == self@.list,
    {
        &self.list
    }

    /// The files that the table shows, in its order.
    pub fn current_results(&self) -> (files: &Vec<DownloadedFile>)
        ensures
            records(files@) == self@.current_results,
    {
        &self.current_results
    }

    /// How many files the store had when the table last fetched them.
    pub fn latest_store_fetch_len(&self) -> (len: usize)
        ensures
            len == self@.latest_store_fetch_len,
    {
        self.latest_store_fetch_len
    }

    /// The keywords that narrow the table, if any.
    pub fn search_keywords(&self) -> (keywords: Option<String>)
        ensures
            match keywords {
                Some(keywords) => self@.search == Some(keywords@),
                None => self@.search is None,
            },
    {
        match &self.search_status {
            SearchStatus::Idle => None,
            SearchStatus::Filtered(keywords) => Some(keywords.clone()),
        }
    }

    /// The id of the file whose row the view instance in `slot` showed in the
    /// last pass.
    pub fn file_of_view(&self, slot: usize) -> (id: Option<String>)
        ensures
            match id {
                Some(id) => self@.file_item_map.contains_key(slot as u64)
                    && self@.file_item_map[slot as u64] == id@,
                None => !self@.file_item_map.contains_key(slot as u64),
            },
    {
        let key = slot as u64;
        match self.file_item_map.get(&key) {
            Some(id) => Some(id.clone()),
            None => None,
        }
    }

    /// The visible area was resized.
    pub fn set_viewport_extent(&mut self, extent: u32, row_extent: u32)
        requires
            old(self).wf(),
        ensures
            final(self).wf(),
            final(self)@ == (TableModel {
                list: old(self)@.list.resize(extent, row_extent),
                ..old(self)@
            }),
    {
        self.list.set_viewport_extent(extent, row_extent);
    }

    /// Takes all files of the store.
    pub fn fetch_results(&mut self, store: &Vec<DownloadedFile>)
        requires
            old(self).wf(),
        ensures
            final(self).wf(),
            final(self)@ == old(self)@.fetched(records(store@)),
    {
        self.current_results = clone_files(store);
        self.latest_store_fetch_len = self.current_results.len();
    }

    /// Narrows the table to the files of the store whose name, or whose
    /// model's name, holds the keywords; case is ignored. Returns that the
    /// table is to be drawn again.
    pub fn filter_by_keywords(&mut self, store: &Vec<DownloadedFile>, keywords: &str) -> (redraw:
        bool)
        requires
            old(self).wf(),
        ensures
            final(self).wf(),
            final(self)@ == old(self)@.filtered(records(store@), keywords@),
            redraw,
    {
        let keywords = to_lowercase(keywords);
        self.current_results = files_matching(store, keywords.as_str());
        self.latest_store_fetch_len = store.len();
        self.search_status = SearchStatus::Filtered(keywords);
        true
    }

    /// Shows all files of the store again. Returns that the table is to be
    /// drawn again.
    pub fn reset_results(&mut self, store: &Vec<DownloadedFile>) -> (redraw: bool)
        requires
            old(self).wf(),
        ensures
            final(self).wf(),
            final(self)@ == old(self)@.reset(records(store@)),
            redraw,
    {
        self.current_results = clone_files(store);
        self.search_status = SearchStatus::Idle;
        true
    }

    /// Takes a run of search actions, in order. Returns whether the table is
    /// to be drawn again.
    pub fn handle_actions(
        &mut self,
        actions: &Vec<MyModelsSearchAction>,
        store: &Vec<DownloadedFile>,
    ) -> (redraw: bool)
        requires
            old(self).wf(),
        ensures
            final(self).wf(),
            final(self)@ == old(self)@.after_actions(actions@, records(store@)),
            redraw == exists|i: int|
                0 <= i < actions@.len() && !(#[trigger] actions@[i] is Other),
    {
        let mut redraw = false;
        let mut i: usize = 0;
        while i < actions.len()
            invariant
                i <= actions.len(),
                self.wf(),
                self@ == old(self)@.after_actions(actions@.take(i as int), records(store@)),
                redraw == exists|k: int| 0 <= k < i && !(#[trigger] actions@[k] is Other),
            decreases actions.len() - i,
        {
            proof {
                assert(actions@.take(i + 1).drop_last() =~= actions@.take(i as int));
                assert(actions@.take(i + 1).last() == actions@[i as int]);
            }
            match &actions[i] {
                MyModelsSearchAction::Search(keywords) => {
                    self.filter_by_keywords(store, keywords.as_str());
                    redraw = true;
                },
                MyModelsSearchAction::Reset => {
                    self.reset_results(store);
                    redraw = true;
                },
                MyModelsSearchAction::Other => {},
            }
            i += 1;
        }
        assert(actions@.take(actions.len() as int) =~= actions@);
        redraw
    }

    /// The template of each row of a table of `files` files.
    pub fn kinds_of(files: usize) -> (kinds: Vec<KindTag>)
        ensures
            kinds@ == row_kinds(files as nat),
    {
        let mut kinds: Vec<KindTag> = Vec::new();
        kinds.push(KindTag::HeaderRow);
        let mut i: usize = 0;
        while i < files
            invariant
                i <= files,
                kinds@.len() == i + 1,
                forall|k: int| 0 <= k < kinds@.len() ==> kinds@[k] == row_kinds(files as nat)[k],
            decreases files - i,
        {
            kinds.push(KindTag::ItemRow);
            i += 1;
        }
        assert(kinds@ =~= row_kinds(files as nat));
        kinds
    }

    /// What is drawn for one file in the view instance lent to it.
    pub fn row_for(item: DrawnItem, file: &DownloadedFile, current: Option<&str>) -> (row: FileRow)
        ensures
            file_row_shows(
                row,
                item,
                file@,
                match current {
                    Some(id) => Some(id@),
                    None => None,
                },
            ),
    {
        let show_resume_button = match current {
            Some(id) => String::from_str(id) == file.file_id,
            None => false,
        };
        FileRow {
            view: item.view,
            file_id: file.file_id.clone(),
            show_resume_button,
            name: human_readable_name(file.file_name.as_str()),
            base_model: String::from_str(dash_if_empty(file.model_architecture.as_str())),
            parameters: String::from_str(dash_if_empty(file.model_size.as_str())),
            version: slash_join(file.model_name.as_str(), file.file_name.as_str()),
            file_size: or_dash(
                match &file.file_size {
                    Some(size) => Some(size.clone()),
                    None => None,
                },
            ),
            date_added: added_date(file.downloaded_at),
            show_separator: item.index != 1,
        }
    }

    /// Brings the results up to the store, as a pass does before it draws,
    /// and puts them newest first; what the table remembered of the last
    /// pass's view instances is forgotten.
    pub fn refresh_results(&mut self, store: &Vec<DownloadedFile>)
        requires
            old(self).wf(),
        ensures
            final(self).wf(),
            final(self)@.list == old(self)@.list,
            sorted_newest_first(
                old(self)@.refreshed(records(store@)).current_results,
                final(self)@.current_results,
            ),
            final(self)@.latest_store_fetch_len == old(self)@.refreshed(
                records(store@),
            ).latest_store_fetch_len,
            final(self)@.search == old(self)@.refreshed(records(store@)).search,
            final(self)@.file_item_map == Map::<u64, Seq<char>>::empty(),
    {
        self.file_item_map.clear();
        let narrowed = self.search_keywords();
        match narrowed {
            Some(keywords) => {
                self.current_results = files_matching(store, keywords.as_str());
                self.latest_store_fetch_len = store.len();
            },
            None => {
                self.fetch_results(store);
            },
        }
        sort_newest_first(&mut self.current_results);
        assert(self@.file_item_map =~= Map::<u64, Seq<char>>::empty());
    }

    /// Begins a pass that the host's own list lays out: refreshes the
    /// results and declares the range, the header and one row per file.
    pub fn begin_pass(&mut self, store: &Vec<DownloadedFile>)
        requires
            old(self).wf(),
        ensures
            final(self).wf(),
            sorted_newest_first(
                old(self)@.refreshed(records(store@)).current_results,
                final(self)@.current_results,
            ),
            final(self)@.latest_store_fetch_len == old(self)@.refreshed(
                records(store@),
            ).latest_store_fetch_len,
            final(self)@.search == old(self)@.refreshed(records(store@)).search,
            final(self)@.file_item_map == Map::<u64, Seq<char>>::empty(),
            final(self)@.list == old(self)@.list.begin_pass(
                row_count(final(self)@.current_results.len()),
            ),
    {
        self.refresh_results(store);
        let files = self.current_results.len();
        let count = if files < usize::MAX {
            files + 1
        } else {
            files
        };
        self.list.set_item_count(count);
    }

    /// One step of such a pass: what is drawn at `index`, in the view
    /// instance lent to it, which the table remembers for a file's row;
    /// nothing where the table has no row there.
    pub fn draw_item(&mut self, index: usize, current: Option<&str>) -> (row: Option<TableRow>)
        requires
            old(self).wf(),
        ensures
            final(self).wf(),
            final(self)@.current_results == old(self)@.current_results,
            final(self)@.latest_store_fetch_len == old(self)@.latest_store_fetch_len,
            final(self)@.search == old(self)@.search,
            match row {
                Some(row) => index <= old(self)@.current_results.len() && final(self)@.list == old(
                    self,
                )@.list.resolve(index, row_kind(index)) && row_shows(
                    row,
                    DrawnItem {
                        index,
                        view: ViewHandle {
                            kind: row_kind(index),
                            slot: resolved_slot(old(self)@.list.pool, index, row_kind(index)) as usize,
                        },
                    },
                    old(self)@.current_results,
                    match current {
                        Some(id) => Some(id@),
                        None => None,
                    },
                ) && final(self)@.file_item_map == match row {
                    TableRow::Header(_) => old(self)@.file_item_map,
                    TableRow::File(row) => old(self)@.file_item_map.insert(
                        row.view.slot as u64,
                        row.file_id@,
                    ),
                },
                None => index > old(self)@.current_results.len() && final(self)@ == old(self)@,
            },
    {
        if index == 0 {
            let view = self.list.resolve_view(0, KindTag::HeaderRow);
            Some(TableRow::Header(view))
        } else if index <= self.current_results.len() {
            let view = self.list.resolve_view(index, KindTag::ItemRow);
            let row = Self::row_for(
                DrawnItem { index, view },
                &self.current_results[index - 1],
                current,
            );
            let ghost map_before = self.file_item_map@;
            self.file_item_map.insert(view.slot as u64, row.file_id.clone());
            proof {
                assert(self.file_item_map@.map_values(|id: String| id@) =~= map_before.map_values(
                    |id: String| id@,
                ).insert(view.slot as u64, row.file_id@));
            }
            Some(TableRow::File(row))
        } else {
            None
        }
    }

    /// Runs one pass. The results are brought up to the store and put
    /// newest first; then the header and the visible files are drawn in
    /// ascending order, each in a view instance of its template, and the
    /// table remembers which view instance shows which file.
    pub fn draw_walk(&mut self, store: &Vec<DownloadedFile>, current: Option<&str>) -> (rows: Vec<
        TableRow,
    >)
        requires
            old(self).wf(),
        ensures
            final(self).wf(),
            sorted_newest_first(
                old(self)@.refreshed(records(store@)).current_results,
                final(self)@.current_results,
            ),
            final(self)@.latest_store_fetch_len == old(self)@.refreshed(
                records(store@),
            ).latest_store_fetch_len,
            final(self)@.search == old(self)@.refreshed(records(store@)).search,
            final(self)@.file_item_map == files_by_view(rows@),
            draws(
                old(self)@.list,
                final(self)@.list,
                final(self)@.current_results,
                match current {
                    Some(id) => Some(id@),
                    None => None,
                },
                rows@,
            ),
    {
        self.refresh_results(store);
        let kinds = Self::kinds_of(self.current_results.len());
        let drawn = self.list.draw_pass(&kinds);
        let ghost begun = old(self)@.list.begin_pass(kinds@.len() as usize);
        let ghost files = records(self.current_results@);
        let ghost shown = match current {
            Some(id) => Some(id@),
            None => None,
        };
        let ghost pass = self@;
        let mut rows: Vec<TableRow> = Vec::new();
        let mut k: usize = 0;
        assert(self.file_item_map@.map_values(|id: String| id@) =~= files_by_view(rows@));
        while k < drawn.len()
            invariant
                k <= drawn.len(),
                self@ == (TableModel { file_item_map: self@.file_item_map, ..pass }),
                rows@.len() == k,
                files == records(self.current_results@),
                kinds@ == row_kinds(files.len()),
                kinds@.len() == self.current_results.len() + 1,
                shown == match current {
                    Some(id) => Some(id@),
                    None => None,
                },
                self.file_item_map@.map_values(|id: String| id@) == files_by_view(rows@),
                forall|j: int|
                    0 <= j < drawn@.len() ==> (#[trigger] drawn@[j]).index < kinds.len()
                        && drawn@[j].view.kind == kinds@[drawn@[j].index as int],
                forall|j: int|
                    0 <= j < k ==> row_shows(#[trigger] rows@[j], drawn@[j], files, shown),
            decreases drawn.len() - k,
        {
            let item = drawn[k];
            let ghost before = rows@;
            let ghost map_before = self.file_item_map@;
            if item.index == 0 {
                rows.push(TableRow::Header(item.view));
                proof {
                    assert(rows@.drop_last() =~= before);
                }
            } else {
                let row = Self::row_for(item, &self.current_results[item.index - 1], current);
                self.file_item_map.insert(item.view.slot as u64, row.file_id.clone());
                proof {
                    assert(self.file_item_map@.map_values(|id: String| id@) =~= map_before.map_values(
                        |id: String| id@,
                    ).insert(item.view.slot as u64, row.file_id@));
                }
                rows.push(TableRow::File(row));
                proof {
                    assert(rows@.drop_last() =~= before);
                }
            }
            k += 1;
        }
        assert forall|j: int| 0 <= j < rows@.len() implies row_shows(
            rows@[j],
            #[trigger] pass_item(begun, row_kinds(files.len()), j as nat),
            files,
            shown,
        ) by {
            assert(drawn@[j] == pass_item(begun, kinds@, j as nat));
        }
        rows
    }
}

/// `rows` is what one pass over the header and `files` draws, and `after` is
/// the list it leaves: a row for each visible index, in ascending order, in
/// the view instance that the pass lends to it.
pub open spec fn draws(
    before: ListModel,
    after: ListModel,
    files: Seq<FileRecord>,
    current: Option<Seq<char>>,
    rows: Seq<TableRow>,
) -> bool {
    let kinds = row_kinds(files.len());
    let begun = before.begin_pass(kinds.len() as usize);
    &&& rows.len() == visible(before.viewport, kinds.len() as usize).len()
    &&& after == pass_state(begun, kinds, rows.len())
    &&& forall|k: int|
        0 <= k < rows.len() ==> row_shows(
            rows[k],
            #[trigger] pass_item(begun, kinds, k as nat),
            files,
            current,
        )
}

} // verus!
