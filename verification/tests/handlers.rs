use progress_log::entry::LogEntry;
use progress_log::error::{acquired, RequestError, StorageError};
use progress_log::handlers::{
    add_log, delete_log, index, index_response, listing, redirect_after, AddParams, DeleteParams,
};
use progress_log::repository::Repository;
use progress_log::response::{
    failure, page, redirect_home, respond, Response, ADD_PATH, DELETE_PATH, HTML, INDEX_PATH,
    INTERNAL_SERVER_ERROR, OK, PLAIN_TEXT, SEE_OTHER,
};
use rusqlite::Connection;

fn served_store() -> Connection {
    let conn = Connection::open_in_memory().unwrap();
    Repository::new(&conn).ensure_schema().unwrap();
    conn
}

fn form(text: &str, created_at: &str) -> AddParams {
    AddParams { text: text.to_string(), created_at: created_at.to_string() }
}

fn redirect() -> Response {
    Response {
        status: 303,
        content_type: None,
        location: Some("/".to_string()),
        body: String::new(),
    }
}

#[test]
fn paths_statuses_and_content_types_are_fixed() {
    assert_eq!(INDEX_PATH, "/");
    assert_eq!(ADD_PATH, "/add");
    assert_eq!(DELETE_PATH, "/delete");
    assert_eq!(OK, 200);
    assert_eq!(SEE_OTHER, 303);
    assert_eq!(INTERNAL_SERVER_ERROR, 500);
    assert_eq!(HTML, "text/html");
    assert_eq!(PLAIN_TEXT, "text/plain; charset=utf-8");
}

#[test]
fn responses_carry_status_headers_and_body() {
    assert_eq!(redirect_home(), redirect());
    assert_eq!(
        page("<html></html>".to_string()),
        Response {
            status: 200,
            content_type: Some("text/html".to_string()),
            location: None,
            body: "<html></html>".to_string(),
        }
    );
    assert_eq!(
        page(String::new()),
        Response {
            status: 200,
            content_type: Some("text/html".to_string()),
            location: None,
            body: String::new(),
        }
    );
}

#[test]
fn empty_store_gives_a_page_without_entries() {
    let conn = served_store();
    let entries = index(&conn).unwrap();
    assert_eq!(entries, vec![]);
    let document = format!("<ul>{}</ul>", entries.len());
    let response = respond(index_response(Ok(document)));
    assert_eq!(response.status, 200);
    assert_eq!(response.content_type, Some("text/html".to_string()));
    assert_eq!(response.location, None);
    assert_eq!(response.body, "<ul>0</ul>");
}

#[test]
fn posted_entry_is_listed_after_the_redirect() {
    let conn = served_store();
    let response = add_log(&form("Wrote design doc", "2024-01-01 10:00:00"), &conn).unwrap();
    assert_eq!(response, redirect());
    assert_eq!(
        index(&conn).unwrap(),
        vec![LogEntry {
            id: 1,
            text: "Wrote design doc".to_string(),
            created_at: "2024-01-01 10:00:00".to_string(),
        }]
    );
}

#[test]
fn posted_delete_leaves_the_other_entry() {
    let conn = served_store();
    add_log(&form("first", "2024-01-01 10:00:00"), &conn).unwrap();
    add_log(&form("second", "2024-01-01 11:00:00"), &conn).unwrap();
    let response = delete_log(&DeleteParams { id: 1 }, &conn).unwrap();
    assert_eq!(response, redirect());
    assert_eq!(
        index(&conn).unwrap(),
        vec![LogEntry {
            id: 2,
            text: "second".to_string(),
            created_at: "2024-01-01 11:00:00".to_string(),
        }]
    );
}

#[test]
fn posted_delete_of_unassigned_identifier_redirects() {
    let conn = served_store();
    add_log(&form("first", "2024-01-01 10:00:00"), &conn).unwrap();
    add_log(&form("second", "2024-01-01 11:00:00"), &conn).unwrap();
    let before = index(&conn).unwrap();
    let response = delete_log(&DeleteParams { id: 99 }, &conn).unwrap();
    assert_eq!(response, redirect());
    assert_eq!(index(&conn).unwrap(), before);
    assert_eq!(before.len(), 2);
}

#[test]
fn delete_on_empty_store_redirects() {
    let conn = served_store();
    assert_eq!(delete_log(&DeleteParams { id: 1 }, &conn).unwrap(), redirect());
    assert_eq!(index(&conn).unwrap(), vec![]);
}

#[test]
fn storage_failure_is_a_server_error() {
    let conn = Connection::open_in_memory().unwrap();
    let added = add_log(&form("text", "when"), &conn);
    assert!(matches!(added, Err(RequestError::Storage(StorageError::Statement(_)))));
    let response = respond(added);
    assert_eq!(
        response,
        Response {
            status: 500,
            content_type: Some("text/plain; charset=utf-8".to_string()),
            location: None,
            body: "Failed SQL executtion".to_string(),
        }
    );
    let deleted = delete_log(&DeleteParams { id: 1 }, &conn);
    assert!(matches!(deleted, Err(RequestError::Storage(StorageError::Statement(_)))));
    assert_eq!(respond(deleted).status, 500);
    let listed = index(&conn);
    assert!(matches!(listed, Err(RequestError::Storage(StorageError::Statement(_)))));
}

#[test]
fn failed_listing_leaks_no_entry() {
    let conn = served_store();
    add_log(&form("secret text", "secret time"), &conn).unwrap();
    conn.execute(
        "INSERT INTO progress_logs (id, text, created_at) VALUES (4294967296, 'big', 't')",
        [],
    )
    .unwrap();
    let error = index(&conn).unwrap_err();
    let response = failure(&error);
    assert_eq!(response.status, 500);
    assert_eq!(response.body, "Failed SQL executtion");
    assert_eq!(error.message(), "Failed SQL executtion");
}

#[test]
fn render_failure_is_a_server_error() {
    let rendered = index_response(Err(askama::Error::Fmt));
    assert!(matches!(rendered, Err(RequestError::Render(askama::Error::Fmt))));
    assert_eq!(
        respond(rendered),
        Response {
            status: 500,
            content_type: Some("text/plain; charset=utf-8".to_string()),
            location: None,
            body: "Failed to render HTML".to_string(),
        }
    );
}

#[test]
fn pool_failure_is_a_server_error() {
    let manager = r2d2_sqlite::SqliteConnectionManager::file("/nonexistent-directory/log.db");
    let pool = r2d2::Pool::builder()
        .max_size(1)
        .connection_timeout(std::time::Duration::from_millis(200))
        .build_unchecked(manager);
    let error = match acquired(pool.get()) {
        Err(e) => e,
        Ok(_) => panic!("a connection to a database that cannot be opened"),
    };
    assert_eq!(error.message(), "Failed to get connection");
    let response = respond(redirect_after(Err(error)));
    assert_eq!(
        response,
        Response {
            status: 500,
            content_type: Some("text/plain; charset=utf-8".to_string()),
            location: None,
            body: "Failed to get connection".to_string(),
        }
    );
}

#[test]
fn outcomes_map_one_to_one() {
    assert_eq!(redirect_after(Ok(())).unwrap(), redirect());
    assert!(matches!(
        redirect_after(Err(StorageError::Statement(rusqlite::Error::InvalidQuery))),
        Err(RequestError::Storage(StorageError::Statement(rusqlite::Error::InvalidQuery)))
    ));
    let found = vec![LogEntry { id: 2, text: "b".to_string(), created_at: "t".to_string() }];
    assert_eq!(listing(Ok(found.clone())).unwrap(), found);
    assert!(matches!(
        listing(Err(StorageError::Statement(rusqlite::Error::InvalidQuery))),
        Err(RequestError::Storage(StorageError::Statement(rusqlite::Error::InvalidQuery)))
    ));
    let made = page("doc".to_string());
    assert_eq!(respond(Ok(made.clone())), made);
}

#[test]
fn requests_share_one_store_through_the_pool() {
    let pool = r2d2::Pool::new(r2d2_sqlite::SqliteConnectionManager::memory()).unwrap();
    {
        let conn = acquired(pool.get()).unwrap();
        Repository::new(&conn).ensure_schema().unwrap();
    }
    {
        let conn = acquired(pool.get()).unwrap();
        assert_eq!(add_log(&form("Wrote design doc", "2024-01-01 10:00:00"), &conn).unwrap(), redirect());
    }
    let conn = acquired(pool.get()).unwrap();
    assert_eq!(
        index(&conn).unwrap(),
        vec![LogEntry {
            id: 1,
            text: "Wrote design doc".to_string(),
            created_at: "2024-01-01 10:00:00".to_string(),
        }]
    );
}
