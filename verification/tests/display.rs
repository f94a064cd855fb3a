use waveshareoled::bus::{BusError, BusOp, Script, WriteOutcome};
use waveshareoled::display::{
    bring_up_plan, DisplayCommand, DisplayController, SubmitError, BRING_UP_COMMANDS,
    BRING_UP_STEPS, PANEL_ON,
};
use waveshareoled::frame::FrameBuffer;
use waveshareoled::text::{render, MAX_TEXT_CHARS};

/// A device that takes every byte it is given and remembers the pages.
struct Panel {
    pages: Vec<Vec<u8>>,
    commands: Vec<u8>,
}

impl Panel {
    fn new() -> Panel {
        Panel { pages: Vec::new(), commands: Vec::new() }
    }

    fn perform(&mut self, op: &BusOp) -> WriteOutcome {
        match op {
            BusOp::Reset { .. } | BusOp::Settle { .. } => WriteOutcome::Written(0),
            BusOp::Command(byte) => {
                self.commands.push(*byte);
                WriteOutcome::Written(1)
            }
            BusOp::Data(bytes) => {
                self.pages.push(bytes.clone());
                WriteOutcome::Written(bytes.len())
            }
        }
    }

    fn run(&mut self, script: &mut Script) {
        loop {
            let outcome = match script.current() {
                Some(op) => self.perform(op),
                None => break,
            };
            script.report(outcome).unwrap();
        }
        assert!(script.is_complete());
    }
}

fn bring_up(controller: &mut DisplayController) {
    let mut panel = Panel::new();
    loop {
        let outcome = match controller.next_step() {
            Some(op) => panel.perform(op),
            None => break,
        };
        controller.report(outcome).unwrap();
    }
    assert!(controller.is_ready());
}

fn pages_of(frame: &FrameBuffer) -> Vec<Vec<u8>> {
    (0..8).map(|page| frame.page(page).unwrap()).collect()
}

#[test]
fn bring_up_is_the_fixed_sequence() {
    let plan = bring_up_plan();
    assert_eq!(plan.len(), BRING_UP_STEPS);
    assert_eq!(plan.len(), 31);
    assert_eq!(plan[0], BusOp::Reset { high: true });
    assert_eq!(plan[1], BusOp::Settle { millis: 1 });
    assert_eq!(plan[2], BusOp::Reset { high: false });
    assert_eq!(plan[3], BusOp::Settle { millis: 10 });
    assert_eq!(plan[4], BusOp::Reset { high: true });
    let expected: [u8; 24] = [
        0xAE, 0x02, 0x10, 0x40, 0x81, 0xA0, 0xC0, 0xA6, 0xA8, 0x3F, 0xD3, 0x00, 0xD5, 0x80, 0xD9,
        0xF1, 0xDA, 0x12, 0xDB, 0x40, 0x20, 0x02, 0xA4, 0xA6,
    ];
    assert_eq!(BRING_UP_COMMANDS, expected);
    for (i, byte) in expected.iter().enumerate() {
        assert_eq!(plan[5 + i], BusOp::Command(*byte));
    }
    assert_eq!(plan[29], BusOp::Settle { millis: 100 });
    assert_eq!(plan[30], BusOp::Command(0xAF));
    assert_eq!(PANEL_ON, 0xAF);
}

#[test]
fn controller_walks_the_bring_up_and_becomes_ready() {
    let mut controller = DisplayController::new(4);
    assert!(!controller.is_ready());
    assert!(!controller.has_failed());
    let plan = bring_up_plan();
    let mut panel = Panel::new();
    for expected in plan.iter() {
        assert!(!controller.is_ready());
        let outcome = {
            let op = controller.next_step().unwrap();
            assert_eq!(op, expected);
            panel.perform(op)
        };
        assert_eq!(controller.report(outcome), Ok(()));
    }
    assert!(controller.is_ready());
    assert!(!controller.has_failed());
    assert_eq!(controller.next_step(), None);
    assert_eq!(panel.commands.len(), 25);
    assert_eq!(panel.commands[24], 0xAF);
    assert_eq!(controller.report(WriteOutcome::Written(1)), Err(BusError::Idle));
    assert!(controller.is_ready());
}

#[test]
fn commands_are_refused_before_the_bring_up_is_done() {
    let mut controller = DisplayController::new(4);
    assert_eq!(controller.submit(DisplayCommand::Clear), Err(SubmitError::NotReady));
    for _ in 0..30 {
        let expected = controller.next_step().unwrap().expected_len();
        controller.report(WriteOutcome::Written(expected)).unwrap();
        assert_eq!(
            controller.submit(DisplayCommand::Text("early".to_string())),
            Err(SubmitError::NotReady)
        );
    }
    assert_eq!(controller.pending(), 0);
    assert!(controller.render_next().is_none());
    controller.report(WriteOutcome::Written(1)).unwrap();
    assert_eq!(controller.submit(DisplayCommand::Clear), Ok(()));
    assert_eq!(controller.pending(), 1);
}

#[test]
fn short_write_during_bring_up_keeps_the_device_out_of_reach() {
    for failing in [5usize, 17, 30] {
        let mut controller = DisplayController::new(4);
        for _ in 0..failing {
            let expected = controller.next_step().unwrap().expected_len();
            controller.report(WriteOutcome::Written(expected)).unwrap();
        }
        assert_eq!(
            controller.report(WriteOutcome::Written(0)),
            Err(BusError::ShortWrite { expected: 1, written: 0 })
        );
        assert!(controller.has_failed());
        assert!(!controller.is_ready());
        assert_eq!(controller.next_step(), None);
        assert_eq!(controller.submit(DisplayCommand::Clear), Err(SubmitError::NotReady));
        assert_eq!(
            controller.submit(DisplayCommand::Text("a".to_string())),
            Err(SubmitError::NotReady)
        );
        assert_eq!(controller.pending(), 0);
        assert!(controller.render_next().is_none());
        assert_eq!(controller.report(WriteOutcome::Written(1)), Err(BusError::Idle));
        assert!(!controller.is_ready());
        assert!(controller.render_next().is_none());
    }
}

#[test]
fn refused_transfer_during_bring_up_is_final_too() {
    let mut controller = DisplayController::new(4);
    assert_eq!(controller.report(WriteOutcome::Fault), Err(BusError::Fault));
    assert!(controller.has_failed());
    assert_eq!(controller.submit(DisplayCommand::Clear), Err(SubmitError::NotReady));
    assert!(controller.render_next().is_none());
}

#[test]
fn three_commands_give_three_full_frames_in_order() {
    let mut controller = DisplayController::new(1000);
    bring_up(&mut controller);
    assert_eq!(controller.submit(DisplayCommand::Text("a".to_string())), Ok(()));
    assert_eq!(controller.submit(DisplayCommand::Clear), Ok(()));
    assert_eq!(controller.submit(DisplayCommand::Text("b".to_string())), Ok(()));
    assert_eq!(controller.pending(), 3);

    let mut frames: Vec<Vec<Vec<u8>>> = Vec::new();
    while let Some(mut script) = controller.render_next() {
        assert_eq!(script.len(), 32);
        let mut panel = Panel::new();
        panel.run(&mut script);
        assert_eq!(panel.pages.len(), 8);
        assert!(panel.pages.iter().all(|page| page.len() == 128));
        let mut addresses = Vec::new();
        for page in 0..8u8 {
            addresses.extend([0xB0 + page, 0x02, 0x10]);
        }
        assert_eq!(panel.commands, addresses);
        assert_eq!(pages_of(controller.frame()), panel.pages);
        frames.push(panel.pages);
        assert!(controller.finish_push(&script));
    }
    assert_eq!(frames.len(), 3);
    assert_eq!(controller.pending(), 0);

    assert_eq!(frames[0], pages_of(&render("a").unwrap()));
    assert_eq!(&frames[0][0][..5], &[0x30, 0x48, 0x48, 0x78, 0x00]);
    assert_eq!(frames[1], vec![vec![0u8; 128]; 8]);
    assert_eq!(frames[2], pages_of(&render("b").unwrap()));
    assert_eq!(&frames[2][0][..5], &[0x7E, 0x48, 0x48, 0x30, 0x00]);
    assert!(frames[2][0][5..].iter().all(|b| *b == 0));
    assert!(frames[2][1..].iter().all(|page| page.iter().all(|b| *b == 0)));
}

#[test]
fn text_replaces_what_was_shown() {
    let mut controller = DisplayController::new(8);
    bring_up(&mut controller);
    controller.submit(DisplayCommand::Text("a\nb".to_string())).unwrap();
    controller.submit(DisplayCommand::Text("b".to_string())).unwrap();
    let push = controller.render_next().unwrap();
    assert_ne!(controller.frame().page(1).unwrap(), vec![0u8; 128]);
    controller.finish_push(&push);
    controller.render_next().unwrap();
    assert_eq!(pages_of(controller.frame()), pages_of(&render("b").unwrap()));
}

#[test]
fn full_queue_holds_the_caller_back() {
    let mut controller = DisplayController::new(2);
    bring_up(&mut controller);
    assert_eq!(controller.submit(DisplayCommand::Text("1".to_string())), Ok(()));
    assert_eq!(controller.submit(DisplayCommand::Text("2".to_string())), Ok(()));
    assert_eq!(
        controller.submit(DisplayCommand::Text("3".to_string())),
        Err(SubmitError::QueueFull)
    );
    assert_eq!(controller.pending(), 2);
    let push = controller.render_next().unwrap();
    assert_eq!(pages_of(controller.frame()), pages_of(&render("1").unwrap()));
    assert_eq!(controller.submit(DisplayCommand::Text("3".to_string())), Ok(()));
    controller.finish_push(&push);
    let push = controller.render_next().unwrap();
    assert_eq!(pages_of(controller.frame()), pages_of(&render("2").unwrap()));
    controller.finish_push(&push);
    let push = controller.render_next().unwrap();
    assert_eq!(pages_of(controller.frame()), pages_of(&render("3").unwrap()));
    controller.finish_push(&push);
    assert!(controller.render_next().is_none());
}

#[test]
fn queue_without_room_accepts_nothing() {
    let mut controller = DisplayController::new(0);
    bring_up(&mut controller);
    assert_eq!(controller.submit(DisplayCommand::Clear), Err(SubmitError::QueueFull));
}

#[test]
fn overlong_text_is_refused_at_submission() {
    let mut controller = DisplayController::new(2);
    let long = "x".repeat(MAX_TEXT_CHARS + 1);
    assert_eq!(
        controller.submit(DisplayCommand::Text(long.clone())),
        Err(SubmitError::NotReady)
    );
    bring_up(&mut controller);
    assert_eq!(controller.submit(DisplayCommand::Text(long)), Err(SubmitError::TextTooLong));
    assert_eq!(controller.pending(), 0);
    controller.submit(DisplayCommand::Clear).unwrap();
    controller.submit(DisplayCommand::Clear).unwrap();
    let long = "x".repeat(MAX_TEXT_CHARS + 1);
    assert_eq!(controller.submit(DisplayCommand::Text(long)), Err(SubmitError::TextTooLong));
}

#[test]
fn failed_push_leaves_the_controller_ready() {
    let mut controller = DisplayController::new(4);
    bring_up(&mut controller);
    controller.submit(DisplayCommand::Text("a".to_string())).unwrap();
    controller.submit(DisplayCommand::Text("b".to_string())).unwrap();
    let mut script = controller.render_next().unwrap();
    script.report(WriteOutcome::Written(1)).unwrap();
    script.report(WriteOutcome::Written(1)).unwrap();
    script.report(WriteOutcome::Written(1)).unwrap();
    assert_eq!(
        script.report(WriteOutcome::Written(64)),
        Err(BusError::ShortWrite { expected: 128, written: 64 })
    );
    assert!(script.is_aborted());
    assert_eq!(script.current(), None);
    assert!(!controller.finish_push(&script));
    assert!(controller.is_ready());
    let mut next = controller.render_next().unwrap();
    let mut panel = Panel::new();
    panel.run(&mut next);
    assert_eq!(panel.pages, pages_of(&render("b").unwrap()));
}

#[test]
fn one_push_is_under_way_at_a_time() {
    let mut controller = DisplayController::new(4);
    bring_up(&mut controller);
    assert!(!controller.is_pushing());
    controller.submit(DisplayCommand::Text("a".to_string())).unwrap();
    controller.submit(DisplayCommand::Text("b".to_string())).unwrap();
    let mut first = controller.render_next().unwrap();
    assert!(controller.is_pushing());
    assert!(controller.render_next().is_none());
    assert_eq!(controller.pending(), 1);
    assert_eq!(pages_of(controller.frame()), pages_of(&render("a").unwrap()));
    assert_eq!(controller.submit(DisplayCommand::Clear), Ok(()));
    assert!(controller.render_next().is_none());
    Panel::new().run(&mut first);
    assert!(controller.render_next().is_none());
    assert!(controller.finish_push(&first));
    assert!(!controller.is_pushing());
    let second = controller.render_next().unwrap();
    assert_eq!(pages_of(controller.frame()), pages_of(&render("b").unwrap()));
    assert!(!controller.finish_push(&second));
    assert_eq!(controller.pending(), 1);
}

#[test]
fn display_command_clone_is_equal() {
    let command = DisplayCommand::Text("hello".to_string());
    assert_eq!(command.clone(), command);
    assert_eq!(DisplayCommand::Clear.clone(), DisplayCommand::Clear);
}
