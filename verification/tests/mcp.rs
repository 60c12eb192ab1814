use shaide::mcp::{
    proxy_target_url, resolve_mcp_target, McpServer, McpService, McpStatus, PodInfo, PodList, PodStatusInfo,
    PodWatchEvent,
};
use shaide::error::ShaideError;

fn pod(name: &str, source: &str, url: &str, ready: bool, restarts: i32) -> PodInfo {
    PodInfo {
        name: Some(name.to_owned()),
        resource_version: Some(format!("rv-{name}")),
        datasource: Some(source.to_owned()),
        url: Some(url.to_owned()),
        status: Some(PodStatusInfo {
            conditions: Some(vec![("Ready".to_owned(), if ready { "True" } else { "False" }.to_owned())]),
            restart_counts: Some(vec![restarts]),
        }),
    }
}

#[test]
fn status_priorities_prefer_restarting_then_starting() {
    assert_eq!(McpStatus::Restarting.priority(), 3);
    assert_eq!(McpStatus::Starting.priority(), 2);
    assert_eq!(McpStatus::Running.priority(), 1);
}

#[test]
fn pods_become_servers_by_their_annotations_and_state() {
    let s = McpServer::try_from_pod(pod("p", "docs", "http://p", true, 3)).unwrap();
    assert_eq!(s.status, McpStatus::Running);
    assert_eq!(s.name, "docs");
    let s = McpServer::try_from_pod(pod("p", "docs", "http://p", false, 1)).unwrap();
    assert_eq!(s.status, McpStatus::Restarting);
    let s = McpServer::try_from_pod(pod("p", "docs", "http://p", false, 0)).unwrap();
    assert_eq!(s.status, McpStatus::Starting);
    let mut no_url = pod("p", "docs", "http://p", true, 0);
    no_url.url = None;
    assert!(McpServer::try_from_pod(no_url).is_none());
}

#[test]
fn the_table_follows_pod_events_and_prefers_the_least_settled_server() {
    let mut service = McpService::new();
    let rv = service
        .update_pod_list(PodList { resource_version: Some("1".to_owned()), items: vec![pod("a", "docs", "http://a", true, 0)] })
        .unwrap();
    assert_eq!(rv, "1");
    assert_eq!(service.get_service_url("docs").as_deref(), Some("http://a"));
    let (rv, restart) = service.apply_watch_event("1".to_owned(), PodWatchEvent::Added(pod("b", "docs", "http://b", false, 0)));
    assert_eq!(rv, "rv-b");
    assert!(!restart);
    assert_eq!(service.get_service_url("docs").as_deref(), Some("http://b"));
    let (rv, _) = service.apply_watch_event(rv, PodWatchEvent::Deleted(pod("b", "docs", "http://b", false, 0)));
    assert_eq!(rv, "rv-b");
    assert_eq!(service.get_service_url("docs").as_deref(), Some("http://a"));
    assert_eq!(service.get_services().len(), 1);
    let (rv, restart) = service.apply_watch_event(rv, PodWatchEvent::Error);
    assert!(restart);
    assert_eq!(rv, "rv-b");
    let (rv, _) = service.apply_watch_event(rv, PodWatchEvent::Bookmark("9".to_owned()));
    assert_eq!(rv, "9");
    assert!(service.update_pod_list(PodList { resource_version: None, items: vec![] }).is_err());
    assert_eq!(service.get_services().len(), 1);
}

#[test]
fn proxied_requests_resolve_to_a_server_url() {
    let mut service = McpService::new();
    service.insert_pod(pod("a", "docs", "http://a/base//", true, 0));
    assert!(matches!(resolve_mcp_target(&service, None), Err(ShaideError::BadRequest(m)) if m == "Server id not found"));
    assert!(matches!(
        resolve_mcp_target(&service, Some("missing")),
        Err(ShaideError::NotFoundRoute(m)) if m == "mcp route not found"
    ));
    let base = resolve_mcp_target(&service, Some("docs")).unwrap();
    let params = vec![("server_id".to_owned(), "docs".to_owned()), ("path".to_owned(), "tools/list".to_owned())];
    assert_eq!(proxy_target_url(&base, &params, Some("a=1")), "http://a/base/tools/list?a=1");
    assert_eq!(proxy_target_url(&base, &vec![], None), "http://a/base/");
}
