use void_editor::session::{ClientId, Session, SessionCommand, ViewCommand};

#[test]
fn clients_get_fresh_ids() {
    let mut s: Session<(), &str> = Session::new(());
    let a = s.create_client("a");
    let b = s.create_client("b");
    assert_eq!(a, ClientId(0));
    assert_eq!(b, ClientId(1));
    assert_ne!(a, b);
}

#[test]
fn delete_client_reports_whether_attached() {
    let mut s: Session<(), u8> = Session::new(());
    let a = s.create_client(1);
    assert!(s.delete_client(a));
    assert!(!s.delete_client(a));
    assert!(!s.delete_client(ClientId(7)));
}

#[test]
fn ids_are_not_reused_after_delete() {
    let mut s: Session<(), u8> = Session::new(());
    let a = s.create_client(1);
    s.delete_client(a);
    let b = s.create_client(2);
    assert_eq!(b, ClientId(1));
}

#[test]
fn commands_carry_their_target() {
    let c: SessionCommand<u8> = SessionCommand::View(ViewCommand::Nothing);
    assert!(matches!(c, SessionCommand::View(ViewCommand::Nothing)));
    let e: SessionCommand<u8> = SessionCommand::Editor(3);
    assert!(matches!(e, SessionCommand::Editor(3)));
}
