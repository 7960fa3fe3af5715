use alternating_tiler::commands::{direction_command, subscription_commands};
use alternating_tiler::policy::Direction;

#[test]
fn direction_commands_have_the_exact_text() {
    assert_eq!(direction_command(Direction::Vertical), "command set-tiling-direction vertical");
    assert_eq!(
        direction_command(Direction::Horizontal),
        "command set-tiling-direction horizontal"
    );
}

#[test]
fn subscriptions_cover_the_fixed_event_set_in_order() {
    let subs = subscription_commands();
    assert_eq!(
        subs,
        vec![
            "sub -e focus_changed",
            "sub -e focused_container_moved",
            "sub -e application_exiting",
        ]
    );
}
