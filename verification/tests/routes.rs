use live_reload::routes::{routes, Route};

#[test]
fn paths_are_the_documented_ones() {
    assert_eq!(Route::Home.path(), "/");
    assert_eq!(Route::StaticFiles.path(), "/static");
    assert_eq!(Route::ReloadSocket.path(), "/ws");
}

#[test]
fn plain_server_has_no_reload_socket() {
    assert_eq!(routes(false), vec![Route::Home, Route::StaticFiles]);
}

#[test]
fn dev_server_adds_the_reload_socket() {
    assert_eq!(routes(true), vec![Route::Home, Route::StaticFiles, Route::ReloadSocket]);
}
