use lores_app_node::errors::{NodeError, StoreError};
use lores_app_node::realtime::{ServerMessage, SessionAction, SessionEvent, SocketSession};
use lores_app_node::static_sites;
use lores_app_node::websites::{
    create_response, handle_event, index_response, new_website, project, website_created, AppOperation,
    CreateWebsiteData, CreateWebsiteResponse, HandlerAction, HandlerEvent, Website, WebsitesIndexResponse,
};

fn payload() -> CreateWebsiteData {
    CreateWebsiteData { name: "Garden".into(), description: Some("Community garden".into()) }
}

fn is_uuid_v4(s: &str) -> bool {
    let b = s.as_bytes();
    b.len() == 36
        && b.iter().enumerate().all(|(i, c)| {
            if [8, 13, 18, 23].contains(&i) { *c == b'-' } else { c.is_ascii_digit() || (b'a'..=b'f').contains(c) }
        })
        && b[14] == b'4'
        && [b'8', b'9', b'a', b'b'].contains(&b[19])
}

#[test]
fn website_created_shares_id_and_fields() {
    let (op, site) = website_created("id-1".into(), payload());
    let AppOperation::WebsiteCreatedV1(data) = op;
    assert_eq!(data.id, "id-1");
    assert_eq!(data.name, "Garden");
    assert_eq!(data.description.as_deref(), Some("Community garden"));
    assert_eq!(site.id, "id-1");
    assert_eq!(site.name, "Garden");
    assert_eq!(site.description.as_deref(), Some("Community garden"));
}

#[test]
fn new_website_gets_fresh_uuid() {
    let (op1, site1) = new_website(payload());
    let (_, site2) = new_website(CreateWebsiteData { name: "x".into(), description: None });
    assert!(is_uuid_v4(&site1.id), "{}", site1.id);
    assert!(is_uuid_v4(&site2.id), "{}", site2.id);
    assert_ne!(site1.id, site2.id);
    let AppOperation::WebsiteCreatedV1(data) = op1;
    assert_eq!(data.id, site1.id);
    assert_eq!(site2.description, None);
}

#[test]
fn projection_inserts_the_created_website() {
    let (op, site) = website_created("abc".into(), payload());
    let row = project(op);
    assert_eq!((row.id, row.name, row.description), (site.id, site.name, site.description));
}

#[test]
fn create_response_depends_on_publish() {
    let site = Website { id: "1".into(), name: "n".into(), description: None };
    assert!(matches!(create_response(&Ok(()), site.clone()), CreateWebsiteResponse::Created(w) if w.id == "1"));
    assert!(matches!(
        create_response(&Err(StoreError::Other("x".into())), site),
        CreateWebsiteResponse::InternalServerError
    ));
}

#[test]
fn index_response_depends_on_query() {
    let site = Website { id: "1".into(), name: "n".into(), description: None };
    assert!(matches!(index_response(Ok(vec![site])), WebsitesIndexResponse::Listed(v) if v.len() == 1));
    assert!(matches!(index_response(Err("locked".into())), WebsitesIndexResponse::InternalServerError));
}

#[test]
fn event_handler_decisions() {
    let (op, _) = website_created("7".into(), payload());
    assert!(matches!(handle_event(HandlerEvent::Received(op)), HandlerAction::Insert(w) if w.id == "7"));
    assert!(matches!(handle_event(HandlerEvent::Lagged(5)), HandlerAction::SkipLagged(5)));
    assert!(matches!(handle_event(HandlerEvent::Closed), HandlerAction::Stop));
}

#[test]
fn static_directory_starts_with_examples_and_appends() {
    let mut dir = static_sites::WebsiteDirectory::with_examples();
    let names: Vec<&str> = dir.websites().iter().map(|w| w.name.as_str()).collect();
    assert_eq!(names, vec!["Example Site", "My Blog", "Portfolio"]);
    let (op, site) = static_sites::website_created(static_sites::CreateWebsiteData { name: "New".into(), description: "D".into() });
    dir.add(site.clone());
    let static_sites::AppOperation::WebsiteCreatedV1(data) = op;
    assert_eq!((data.name.as_str(), data.description.as_str()), ("New", "D"));
    assert_eq!((site.name.as_str(), site.description.as_str()), ("New", "D"));
    assert_eq!(dir.websites().len(), 4);
    assert_eq!(dir.websites()[3].name, "New");
}

#[test]
fn session_when_ready_forwards_errors() {
    let (mut s, first) = SocketSession::connect(true);
    assert!(matches!(first, SessionAction::Send(ServerMessage::Status { ready: true })));
    assert!(matches!(s.step(SessionEvent::Sent { ok: true }), SessionAction::ObserveError));
    assert!(matches!(s.step(SessionEvent::ErrorObserved(None)), SessionAction::WaitErrorChange));
    assert!(matches!(s.step(SessionEvent::ErrorChanged { open: true }), SessionAction::ObserveError));
    let err = NodeError::RegionNotBound("No region bound".into());
    assert!(matches!(
        s.step(SessionEvent::ErrorObserved(Some(err))),
        SessionAction::Send(ServerMessage::Error { error }) if error == "No region bound"
    ));
    assert!(matches!(s.step(SessionEvent::Sent { ok: true }), SessionAction::WaitErrorChange));
    assert!(matches!(s.step(SessionEvent::ErrorChanged { open: false }), SessionAction::Close));
    assert!(s.is_closed());
}

#[test]
fn session_waits_for_ready_before_errors() {
    let (mut s, first) = SocketSession::connect(false);
    assert!(matches!(first, SessionAction::Send(ServerMessage::Status { ready: false })));
    assert!(matches!(s.step(SessionEvent::Sent { ok: true }), SessionAction::WaitReady));
    assert!(matches!(s.step(SessionEvent::ReadyChanged(Some(false))), SessionAction::WaitReady));
    assert!(matches!(
        s.step(SessionEvent::ReadyChanged(Some(true))),
        SessionAction::Send(ServerMessage::Status { ready: true })
    ));
    assert!(matches!(s.step(SessionEvent::Sent { ok: true }), SessionAction::ObserveError));
}

#[test]
fn session_closes_on_failures() {
    let (mut s, _) = SocketSession::connect(true);
    assert!(matches!(s.step(SessionEvent::Sent { ok: false }), SessionAction::Close));
    assert!(matches!(s.step(SessionEvent::Sent { ok: true }), SessionAction::Close));
    let (mut s, _) = SocketSession::connect(false);
    s.step(SessionEvent::Sent { ok: true });
    assert!(matches!(s.step(SessionEvent::ReadyChanged(None)), SessionAction::Close));
    let (mut s, _) = SocketSession::connect(false);
    s.step(SessionEvent::Sent { ok: true });
    assert!(matches!(s.step(SessionEvent::ErrorObserved(None)), SessionAction::Close));
    assert!(s.is_closed());
}
