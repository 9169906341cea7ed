use vstd::prelude::*;

use crate::error::FormError;
use crate::json::{is_hyphenated_uuid, json_accepts, new_form_id, now_rfc3339, parse_json, write_json};

verus! {

/// A row of the `forms` table as the listing query returns it.
pub struct StoredRow {
    pub uuid: Option<String>,
    pub data: String,
    pub updated_at: String,
}

/// The contents of a row: identifier (empty where the column is NULL),
/// stored text and time of the last write.
pub ghost struct RowView {
    pub uuid: Seq<char>,
    pub data: Seq<char>,
    pub updated_at: Seq<char>,
}

impl View for StoredRow {
    type V = RowView;

    open spec fn view(&self) -> RowView {
        RowView {
            uuid: match self.uuid {
                Some(u) => u@,
                None => Seq::<char>::empty(),
            },
            data: self.data@,
            updated_at: self.updated_at@,
        }
    }
}

/// One entry of the listing handed to clients.
pub struct FormListItem {
    pub uuid: String,
    pub data: serde_json::Value,
    pub updated_at: String,
}

pub open spec fn row_views(rows: Seq<StoredRow>) -> Seq<RowView> {
    rows.map_values(|r: StoredRow| r@)
}

/// Whether the stored text of a row can be read back as JSON.
pub open spec fn readable(r: RowView) -> bool {
    json_accepts(r.data)
}

/// The rows that survive listing: the readable ones, in their order.
pub open spec fn kept_rows(rows: Seq<RowView>) -> Seq<RowView>
    decreases rows.len(),
{
    if rows.len() == 0 {
        rows
    } else {
        let front = kept_rows(rows.drop_last());
        if readable(rows.last()) {
            front.push(rows.last())
        } else {
            front
        }
    }
}

/// Lexicographic order of timestamp texts: `a` sorts after `b`.
pub open spec fn later(a: Seq<char>, b: Seq<char>) -> bool
    decreases a.len(),
{
    if a.len() == 0 {
        false
    } else if b.len() == 0 {
        true
    } else if a[0] != b[0] {
        (a[0] as u32) > (b[0] as u32)
    } else {
        later(a.drop_first(), b.drop_first())
    }
}

/// Rows ordered by `updated_at`, most recent first.
pub open spec fn rows_newest_first(rows: Seq<RowView>) -> bool {
    forall|i: int, j: int|
        0 <= i < j < rows.len() ==> !later(#[trigger] rows[j].updated_at, #[trigger] rows[i].updated_at)
}

/// Listed forms ordered by `updated_at`, most recent first.
pub open spec fn items_newest_first(items: Seq<FormListItem>) -> bool {
    forall|i: int, j: int|
        0 <= i < j < items.len() ==> !later(
            #[trigger] items[j].updated_at@,
            #[trigger] items[i].updated_at@,
        )
}

/// Whether a listed form carries the identifier and time of a row.
pub open spec fn lists_row(item: FormListItem, row: RowView) -> bool {
    item.uuid@ == row.uuid && item.updated_at@ == row.updated_at
}

/// Builds the listing from the rows of the listing query: the rows whose
/// text is not JSON are left out, the others keep their order.
pub fn get_forms(rows: Vec<StoredRow>) -> (r: Vec<FormListItem>)
    ensures
        r@.len() == kept_rows(row_views(rows@)).len(),
        forall|k: int|
            0 <= k < r@.len() ==> lists_row(#[trigger] r@[k], kept_rows(row_views(rows@))[k]),
        rows_newest_first(row_views(rows@)) ==> items_newest_first(r@),
{
    let ghost all = row_views(rows@);
    let mut forms: Vec<FormListItem> = Vec::new();
    let mut i: usize = 0;
    while i < rows.len()
        invariant
            0 <= i <= rows.len(),
            all == row_views(rows@),
            forms@.len() == kept_rows(all.take(i as int)).len(),
            forall|k: int|
                0 <= k < forms@.len() ==> lists_row(
                    #[trigger] forms@[k],
                    kept_rows(all.take(i as int))[k],
                ),
            rows_newest_first(all) ==> items_newest_first(forms@),
            rows_newest_first(all) ==> forall|k: int, j: int|
                0 <= k < forms@.len() && i <= j < all.len() ==> !later(
                    #[trigger] all[j].updated_at,
                    #[trigger] forms@[k].updated_at@,
                ),
        decreases rows.len() - i,
    {
        let row = &rows[i];
        proof {
            assert(all.take(i + 1).drop_last() =~= all.take(i as int));
            assert(all.take(i + 1).last() == all[i as int]);
            assert(all[i as int] == row@);
        }
        match parse_json(row.data.as_str()) {
            Ok(data) => {
                let uuid = match &row.uuid {
                    Some(u) => u.clone(),
                    None => String::new(),
                };
                let item = FormListItem { uuid, data, updated_at: row.updated_at.clone() };
                let ghost before = forms@;
                forms.push(item);
                proof {
                    if rows_newest_first(all) {
                        assert forall|k: int, j: int|
                            0 <= k < forms@.len() && i + 1 <= j < all.len() implies !later(
                                #[trigger] all[j].updated_at,
                                #[trigger] forms@[k].updated_at@,
                            ) by {
                            if k < before.len() {
                                assert(forms@[k] == before[k]);
                            } else {
                                assert(!later(all[j].updated_at, all[i as int].updated_at));
                            }
                        }
                        assert forall|a: int, b: int| 0 <= a < b < forms@.len() implies !later(
                            #[trigger] forms@[b].updated_at@,
                            #[trigger] forms@[a].updated_at@,
                        ) by {
                            assert(forms@[a] == before[a]);
                            if b < before.len() {
                                assert(forms@[b] == before[b]);
                            } else {
                                assert(!later(all[i as int].updated_at, before[a].updated_at@));
                            }
                        }
                    }
                }
            },
            Err(_) => {},
        }
        i += 1;
    }
    proof {
        assert(all.take(rows@.len() as int) =~= all);
    }
    forms
}

/// Where the database lives when no location is configured.
pub open spec fn default_database_url() -> Seq<char> {
    "sqlite:./forms.db"@
}

/// The database location: the configured one, else a file beside the process.
pub fn database_url(configured: Option<String>) -> (r: String)
    ensures
        configured is Some ==> r@ == configured->Some_0@,
        configured is None ==> r@ == default_database_url(),
{
    match configured {
        Some(url) => url,
        None => "sqlite:./forms.db".to_string(),
    }
}

/// The greeting handed back by the liveness endpoint.
pub struct HelloResponse {
    pub hello: String,
}

/// Turns the column that the greeting query (`'Hello ' || name`) returned
/// into the response; a NULL there means the query failed.
pub fn hello(column: Option<String>) -> (r: Result<HelloResponse, FormError>)
    ensures
        column is Some ==> r is Ok && r->Ok_0.hello@ == column->Some_0@,
        column is None ==> r == Err::<HelloResponse, FormError>(FormError::QueryFailed),
{
    match column {
        Some(hello) => Ok(HelloResponse { hello }),
        None => Err(FormError::QueryFailed),
    }
}

/// A request to save a form: the identifier is optional.
pub struct FormRequest {
    pub uuid: Option<String>,
    pub data: serde_json::Value,
}

/// What a save writes: the row's identifier, its data as JSON text and the
/// time of the write.
pub struct SavePlan {
    pub uuid: String,
    pub data: String,
    pub updated_at: String,
}

/// The answer to a save: the identifier the form is stored under.
pub struct FormResponse {
    pub uuid: String,
}

/// The identifier a save uses: the caller's, else a fresh random one.
pub fn form_id(given: Option<String>) -> (r: String)
    ensures
        given is Some ==> r@ == given->Some_0@,
        given is None ==> is_hyphenated_uuid(r@),
{
    match given {
        Some(id) => id,
        None => new_form_id(),
    }
}

/// Builds what a save writes from the identifier, the outcome of writing the
/// data as JSON text, and the time of the write.
pub fn plan_save(uuid: String, encoded: Result<String, serde_json::Error>, now: String) -> (r:
    Result<SavePlan, FormError>)
    ensures
        encoded is Ok ==> r is Ok && r->Ok_0.uuid@ == uuid@ && r->Ok_0.data@ == encoded->Ok_0@
            && r->Ok_0.updated_at@ == now@,
        encoded is Err ==> r == Err::<SavePlan, FormError>(FormError::QueryFailed),
{
    match encoded {
        Ok(data) => Ok(SavePlan { uuid, data, updated_at: now }),
        Err(_) => Err(FormError::QueryFailed),
    }
}

/// Prepares a save: picks the identifier, writes the data as JSON text and
/// stamps the current time. Writing a JSON value never fails, so neither does
/// this.
pub fn save_form(req: FormRequest) -> (r: Result<SavePlan, FormError>)
    ensures
        r is Ok,
        req.uuid is Some ==> r->Ok_0.uuid@ == req.uuid->Some_0@,
        req.uuid is None ==> is_hyphenated_uuid(r->Ok_0.uuid@),
{
    let FormRequest { uuid, data } = req;
    let uuid = form_id(uuid);
    let encoded = write_json(&data);
    let now = now_rfc3339();
    plan_save(uuid, encoded, now)
}

/// Whether a save goes on to insert: the update by identifier touched no row.
pub open spec fn insert_after_update(rows_affected: nat) -> bool {
    rows_affected == 0
}

/// Decides, from the rows the update touched, whether the row is new.
pub fn needs_insert(rows_affected: u64) -> (r: bool)
    ensures
        r == insert_after_update(rows_affected as nat),
{
    rows_affected == 0
}

/// The answer once a save is written.
pub fn saved(plan: SavePlan) -> (r: FormResponse)
    ensures
        r.uuid@ == plan.uuid@,
{
    FormResponse { uuid: plan.uuid }
}

/// The data of one form.
pub struct FormData {
    pub data: serde_json::Value,
}

pub open spec fn text_of(stored: Option<String>) -> Option<Seq<char>> {
    match stored {
        Some(s) => Some(s@),
        None => None,
    }
}

/// How fetching one form fails, given the text stored under its identifier,
/// if any: a missing row is not found, text that is not JSON is a failure.
pub open spec fn fetch_error(stored: Option<Seq<char>>) -> Option<FormError> {
    match stored {
        None => Some(FormError::FormNotFound),
        Some(t) => if json_accepts(t) {
            None
        } else {
            Some(FormError::QueryFailed)
        },
    }
}

/// Reads one form from the text stored under its identifier, if any.
pub fn get_form(stored: Option<String>) -> (r: Result<FormData, FormError>)
    ensures
        r is Ok <==> fetch_error(text_of(stored)) is None,
        r is Err ==> fetch_error(text_of(stored)) == Some(r->Err_0),
{
    match stored {
        Some(text) => match parse_json(text.as_str()) {
            Ok(data) => Ok(FormData { data }),
            Err(_) => Err(FormError::QueryFailed),
        },
        None => Err(FormError::FormNotFound),
    }
}

/// The answer to a delete.
pub struct DeleteResponse {
    pub message: String,
}

pub open spec fn deleted_message() -> Seq<char> {
    "Form deleted successfully"@
}

/// How a delete fails, given the rows it removed: none removed is not found.
pub open spec fn delete_error(rows_affected: nat) -> Option<FormError> {
    if rows_affected == 0 {
        Some(FormError::FormNotFound)
    } else {
        None
    }
}

/// Answers a delete from the rows it removed.
pub fn delete_form(rows_affected: u64) -> (r: Result<DeleteResponse, FormError>)
    ensures
        r is Ok <==> delete_error(rows_affected as nat) is None,
        r is Ok ==> r->Ok_0.message@ == deleted_message(),
        r is Err ==> delete_error(rows_affected as nat) == Some(r->Err_0),
{
    if rows_affected == 0 {
        Err(FormError::FormNotFound)
    } else {
        Ok(DeleteResponse { message: "Form deleted successfully".to_string() })
    }
}

} // verus!
