use builder_rs::gofile::{server_url, servers_list_url, status_is_ok, upload_url, ServerEntry,
    ServerListEntry, ServersJson};

#[test]
fn test_server_url_format() {
    let server = ServerEntry { name: "store5".to_string(), zone: "eu".to_string() };
    let url = server_url(&server.name);
    assert_eq!(url, "https://store5.gofile.io");
}

#[test]
fn test_upload_url_format() {
    let server_url = "https://store1.gofile.io";
    let upload_url = upload_url(server_url);
    assert_eq!(upload_url, "https://store1.gofile.io/contents/uploadFile");
}

#[test]
fn test_servers_list_url() {
    assert_eq!(servers_list_url(), "https://api.gofile.io/servers");
}

#[test]
fn test_first_server_picks_head_of_list() {
    let resp = ServersJson {
        status: "ok".to_string(),
        data: ServerListEntry {
            servers: vec![
                ServerEntry { name: "store1".to_string(), zone: "eu".to_string() },
                ServerEntry { name: "store2".to_string(), zone: "na".to_string() },
            ],
            servers_all_zone: vec![],
        },
    };
    let first = resp.first_server().expect("a server");
    assert_eq!(first.name, "store1");
    assert_eq!(first.zone, "eu");
}

#[test]
fn test_first_server_empty_list() {
    let resp = ServersJson {
        status: "error".to_string(),
        data: ServerListEntry { servers: vec![], servers_all_zone: vec![] },
    };
    assert!(resp.first_server().is_none());
    assert!(!status_is_ok(&resp.status));
    assert!(status_is_ok(&"ok".to_string()));
}
