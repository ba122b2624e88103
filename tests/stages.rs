use cotlgif::buffer::{dispatch, keeps_draining, BufferMessage, RenderBufferer};
use cotlgif::frame::{Frame, FrameHandler, HandleFrameError, RenderMetadata};
use cotlgif::resize::{rescale_frame, resize_rgba, ResizeWrapper, ResizerError};
use std::cell::RefCell;
use std::rc::Rc;

#[derive(Default)]
struct Log {
    metadata: Vec<RenderMetadata>,
    frames: Vec<Frame>,
    finished: usize,
}

struct Recorder {
    log: Rc<RefCell<Log>>,
    answer: Result<(), HandleFrameError>,
}

impl FrameHandler for Recorder {
    fn set_metadata(&mut self, metadata: RenderMetadata) {
        self.log.borrow_mut().metadata.push(metadata);
    }

    fn handle_frame(&mut self, frame: Frame) -> Result<(), HandleFrameError> {
        self.log.borrow_mut().frames.push(frame);
        self.answer
    }

    fn finish(&mut self) {
        self.log.borrow_mut().finished += 1;
    }
}

fn recorder(answer: Result<(), HandleFrameError>) -> (Recorder, Rc<RefCell<Log>>) {
    let log = Rc::new(RefCell::new(Log::default()));
    (Recorder { log: log.clone(), answer }, log)
}

fn solid(w: u32, h: u32, rgba: [u8; 4]) -> Vec<u8> {
    let mut v = Vec::with_capacity((w * h * 4) as usize);
    for _ in 0..w * h {
        v.extend_from_slice(&rgba);
    }
    v
}

fn frame(n: u32, w: u32, h: u32, pixel_data: Vec<u8>) -> Frame {
    Frame { frame_number: n, pixel_data, width: w, height: h, timestamp_us: 20_000 * n as u64 }
}

#[test]
fn resize_of_opaque_single_colour_keeps_the_colour() {
    for &(w, h, tw, th) in &[(1u32, 1u32, 128u32, 128u32), (37, 53, 128, 128), (300, 200, 17, 9), (64, 64, 64, 64)] {
        let colour = [200u8, 30, 90, 255];
        let out = resize_rgba(w, h, solid(w, h, colour), tw, th).expect("resize");
        assert_eq!(out.len(), (tw * th * 4) as usize);
        for px in out.chunks(4) {
            assert_eq!(px, &colour);
        }
    }
}

#[test]
fn resize_changes_the_pixels() {
    let mut px = solid(2, 1, [0, 0, 0, 255]);
    px[4..8].copy_from_slice(&[255, 255, 255, 255]);
    let out = resize_rgba(2, 1, px.clone(), 4, 1).expect("resize");
    assert_eq!(out.len(), 16);
    assert_ne!(out[0..8], px[..]);
}

#[test]
fn resize_of_short_buffer_fails() {
    assert_eq!(resize_rgba(4, 4, vec![0u8; 60], 2, 2), None);
}

#[test]
fn resize_stage_refuses_zero_dimension() {
    let (rec, _) = recorder(Ok(()));
    assert!(matches!(ResizeWrapper::new(0, 128, rec), Err(ResizerError::ZeroDimension)));
    let (rec, _) = recorder(Ok(()));
    assert!(matches!(ResizeWrapper::new(128, 0, rec), Err(ResizerError::ZeroDimension)));
}

#[test]
fn resize_stage_declares_and_sends_the_target_size() {
    let (rec, log) = recorder(Ok(()));
    let mut stage = ResizeWrapper::new(16, 8, rec).ok().unwrap();
    stage.set_metadata(RenderMetadata { frame_count: 2, frame_delay_us: 20_000, frame_width: 40, frame_height: 30 });
    assert_eq!(stage.handle_frame(frame(1, 40, 30, solid(40, 30, [1, 2, 3, 255]))), Ok(()));
    stage.finish();
    let log = log.borrow();
    assert_eq!(log.metadata, vec![RenderMetadata { frame_count: 2, frame_delay_us: 20_000, frame_width: 16, frame_height: 8 }]);
    let f = &log.frames[0];
    assert_eq!((f.frame_number, f.timestamp_us, f.width, f.height), (1, 20_000, 16, 8));
    assert_eq!(f.pixel_data, solid(16, 8, [1, 2, 3, 255]));
    assert_eq!(log.finished, 1);
}

#[test]
fn resize_stage_fails_permanently_on_a_bad_frame() {
    let (rec, log) = recorder(Ok(()));
    let mut stage = ResizeWrapper::new(4, 4, rec).ok().unwrap();
    assert_eq!(stage.handle_frame(frame(0, 0, 4, vec![])), Err(HandleFrameError::PermanentError));
    assert_eq!(stage.handle_frame(frame(0, 4, 4, vec![0u8; 10])), Err(HandleFrameError::PermanentError));
    assert!(log.borrow().frames.is_empty());
}

#[test]
fn buffer_fills_to_its_capacity() {
    let (mut buffer, mut drain) = RenderBufferer::new(3);
    for n in 0..3 {
        assert!(!buffer.is_full());
        assert_eq!(buffer.handle_frame(frame(n, 1, 1, vec![0, 0, 0, 0])), Ok(()));
        assert_eq!(buffer.pending(), n as usize + 1);
    }
    assert!(buffer.is_full());
    let (mut rec, log) = recorder(Ok(()));
    assert!(drain.drain_next(&mut rec));
    assert!(!buffer.is_full());
    assert_eq!(log.borrow().frames[0].frame_number, 0);
}

#[test]
fn buffer_with_receiver_gone_fails_permanently() {
    let (mut buffer, drain) = RenderBufferer::new(4);
    drop(drain);
    assert_eq!(buffer.handle_frame(frame(0, 1, 1, vec![0, 0, 0, 0])), Err(HandleFrameError::PermanentError));
}

#[test]
fn buffer_forwards_everything_in_order() {
    let (mut buffer, mut drain) = RenderBufferer::new(10);
    let md = RenderMetadata { frame_count: 3, frame_delay_us: 1, frame_width: 1, frame_height: 1 };
    buffer.set_metadata(md);
    for n in 0..3 {
        buffer.handle_frame(frame(n, 1, 1, vec![n as u8, 0, 0, 255])).unwrap();
    }
    buffer.finish();
    assert_eq!(buffer.handle_frame(frame(9, 1, 1, vec![0, 0, 0, 0])), Err(HandleFrameError::PermanentError));
    let (mut rec, log) = recorder(Err(HandleFrameError::TemporaryError));
    let mut steps = 0;
    while drain.drain_next(&mut rec) {
        steps += 1;
    }
    assert_eq!(steps, 4);
    let log = log.borrow();
    assert_eq!(log.metadata, vec![md]);
    let numbers: Vec<u32> = log.frames.iter().map(|f| f.frame_number).collect();
    assert_eq!(numbers, vec![0, 1, 2]);
    assert_eq!(log.finished, 1);
}

#[test]
fn drain_stops_on_permanent_failure() {
    let (mut rec, log) = recorder(Err(HandleFrameError::PermanentError));
    assert_eq!(dispatch(&mut rec, BufferMessage::Frame(frame(0, 1, 1, vec![0, 0, 0, 0]))), (false, Some(Err(HandleFrameError::PermanentError))));
    assert_eq!(log.borrow().finished, 1);
    assert_eq!(dispatch(&mut rec, BufferMessage::Metadata(RenderMetadata { frame_count: 1, frame_delay_us: 1, frame_width: 1, frame_height: 1 })), (true, None));
    assert!(keeps_draining(&Ok(())));
    assert!(keeps_draining(&Err(HandleFrameError::TemporaryError)));
    assert!(!keeps_draining(&Err(HandleFrameError::PermanentError)));
}

#[test]
fn drain_ends_when_the_producer_is_gone() {
    let (buffer, mut drain) = RenderBufferer::new(2);
    drop(buffer);
    let (mut rec, log) = recorder(Ok(()));
    assert!(!drain.drain_next(&mut rec));
    assert_eq!(log.borrow().finished, 1);
}

#[test]
fn rescale_frame_halves_an_opaque_frame() {
    let f = frame(3, 8, 4, solid(8, 4, [9, 8, 7, 255]));
    let out = rescale_frame(f, 4, 2).ok().unwrap();
    assert_eq!((out.frame_number, out.timestamp_us, out.width, out.height), (3, 60_000, 4, 2));
    assert_eq!(out.pixel_data, solid(4, 2, [9, 8, 7, 255]));
    assert_eq!(rescale_frame(frame(0, 2, 2, vec![0u8; 16]), 0, 2).err(), Some(HandleFrameError::PermanentError));
    assert_eq!(rescale_frame(frame(0, 2, 2, vec![0u8; 16]), 65536, 65536).err(), Some(HandleFrameError::PermanentError));
}
