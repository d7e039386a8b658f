use frost_vector::frame_driver::{FrameAction, FrameDriver, FrameResult, WindowInput};

#[test]
fn exits_after_more_than_limit_frames() {
    let mut driver = FrameDriver::new(2);
    assert_eq!(driver.on_input(WindowInput::RedrawRequested), FrameAction::RenderFrame);
    assert_eq!(driver.on_frame_result(FrameResult::Presented), FrameAction::FinishFrame);
    assert_eq!(driver.on_frame_result(FrameResult::Presented), FrameAction::FinishFrame);
    assert_eq!(driver.on_frame_result(FrameResult::Presented), FrameAction::FinishFrameAndExit);
    assert!(driver.is_terminated());
    assert_eq!(driver.presented(), 3);
    assert_eq!(driver.on_input(WindowInput::RedrawRequested), FrameAction::Nothing);
    assert_eq!(driver.on_frame_result(FrameResult::Presented), FrameAction::Nothing);
    assert_eq!(driver.presented(), 3);
}

#[test]
fn close_and_escape_terminate() {
    let mut driver = FrameDriver::new(10);
    assert_eq!(driver.on_input(WindowInput::CloseRequested), FrameAction::Exit);
    assert!(driver.is_terminated());
    let mut driver = FrameDriver::new(10);
    assert_eq!(driver.on_input(WindowInput::EscapePressed), FrameAction::Exit);
    assert_eq!(driver.on_input(WindowInput::KeyPressed), FrameAction::Nothing);
}

#[test]
fn resize_only_for_nonzero_sizes() {
    let mut driver = FrameDriver::new(10);
    assert_eq!(
        driver.on_input(WindowInput::Resized { width: 800, height: 600 }),
        FrameAction::ResizeSurface { width: 800, height: 600 }
    );
    assert_eq!(driver.on_input(WindowInput::Resized { width: 0, height: 600 }), FrameAction::Nothing);
    assert_eq!(driver.on_input(WindowInput::Resized { width: 800, height: 0 }), FrameAction::Nothing);
    assert_eq!(driver.on_input(WindowInput::KeyPressed), FrameAction::ForwardKey);
    assert_eq!(driver.on_input(WindowInput::Other), FrameAction::Nothing);
}

#[test]
fn surface_errors() {
    let mut driver = FrameDriver::new(10);
    assert_eq!(driver.on_frame_result(FrameResult::Timeout), FrameAction::Nothing);
    assert_eq!(driver.on_frame_result(FrameResult::Lost), FrameAction::ReconfigureSurface);
    assert_eq!(driver.on_frame_result(FrameResult::Outdated), FrameAction::ReconfigureSurface);
    assert_eq!(driver.presented(), 0);
    assert!(!driver.is_terminated());
    assert_eq!(driver.on_frame_result(FrameResult::OutOfMemory), FrameAction::Exit);
    assert!(driver.is_terminated());
}

#[test]
fn zero_limit_stops_after_first_frame() {
    let mut driver = FrameDriver::new(0);
    assert_eq!(driver.on_frame_result(FrameResult::Presented), FrameAction::FinishFrameAndExit);
}
