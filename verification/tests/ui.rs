use gpt_shell::ui::{SpinnerFrames, CLEAR_LINE, FRAME_COUNT, THINKING};

#[test]
fn the_frames_come_in_order_and_round_again() {
    let expected = ["⠋", "⠙", "⠹", "⠸", "⠼", "⠴", "⠦", "⠧", "⠇", "⠏"];
    assert_eq!(FRAME_COUNT, expected.len());
    let mut frames = SpinnerFrames::new();
    for round in 0..3 {
        for frame in expected {
            assert_eq!(frames.current(), frame, "round {}", round);
            frames.advance();
        }
    }
    assert_eq!(frames.current(), "⠋");
}

#[test]
fn the_texts_of_the_indicator() {
    assert_eq!(CLEAR_LINE, "\r                                          \r");
    assert_eq!(CLEAR_LINE.len(), 44);
    assert_eq!(THINKING, " thinking...");
}
