use syncforge::ui::{Spinner, SpinnerStyle, Tab};

#[test]
fn tabs_wrap_round() {
    assert_eq!(Tab::Connection.next(), Tab::SchemaDiff);
    assert_eq!(Tab::TableBrowser.next(), Tab::Connection);
    assert_eq!(Tab::Connection.prev(), Tab::TableBrowser);
    assert_eq!(Tab::from_index(9), Tab::Connection);
    assert_eq!(Tab::DataSync.index(), 2);
    assert_eq!(Tab::titles()[3], "F4 Browser");
}

#[test]
fn spinner_advances_after_frame_time() {
    let mut s = Spinner::new(SpinnerStyle::Dots);
    s.tick(1000);
    assert_eq!(s.frame(), "⠋");
    s.start("Loading", 1000);
    s.tick(1050);
    assert_eq!(s.frame(), "⠋");
    s.tick(1080);
    assert_eq!(s.frame(), "⠙");
    assert_eq!(s.display(), "⠙ Loading");
    s.stop();
    assert_eq!(s.display(), "");
    assert_eq!(SpinnerStyle::Bar.frames().len(), 15);
}
