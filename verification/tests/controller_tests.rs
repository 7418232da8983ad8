use nes::controller::{Button, ButtonAction, Controller};

#[test]
fn reading() {
    let mut c = Controller::new();

    c.update(ButtonAction::Pressed, Button::A);
    assert_eq!(c.read_next(), 0);
    c.set_strobe(1);

    c.update(ButtonAction::Pressed, Button::A);
    assert_eq!(c.read_next(), 1);
    assert_eq!(c.read_next(), 1);

}
