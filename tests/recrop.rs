use cotlgif::frame::{Frame, FrameHandler, HandleFrameError, RenderMetadata};
use cotlgif::recrop::{crop_frame, CropRect, Recropper};
use std::cell::RefCell;
use std::rc::Rc;

#[derive(Default)]
struct Log {
    metadata: Vec<RenderMetadata>,
    frames: Vec<Frame>,
    finished: usize,
}

struct Recorder {
    log: Rc<RefCell<Log>>,
    fail_after: Option<usize>,
}

impl FrameHandler for Recorder {
    fn set_metadata(&mut self, metadata: RenderMetadata) {
        self.log.borrow_mut().metadata.push(metadata);
    }

    fn handle_frame(&mut self, frame: Frame) -> Result<(), HandleFrameError> {
        let mut log = self.log.borrow_mut();
        log.frames.push(frame);
        match self.fail_after {
            Some(n) if log.frames.len() >= n => Err(HandleFrameError::PermanentError),
            _ => Ok(()),
        }
    }

    fn finish(&mut self) {
        self.log.borrow_mut().finished += 1;
    }
}

fn metadata(w: usize, h: usize, count: u32) -> RenderMetadata {
    RenderMetadata { frame_count: count, frame_delay_us: 100_000, frame_width: w, frame_height: h }
}

/// A transparent `w` x `h` frame with the given pixels set opaque.
fn frame_with(n: u32, w: usize, h: usize, opaque: &[(usize, usize)]) -> Frame {
    let mut pixel_data = vec![0u8; w * h * 4];
    for &(x, y) in opaque {
        let i = (y * w + x) * 4;
        pixel_data[i] = (10 * x + y) as u8;
        pixel_data[i + 1] = 7;
        pixel_data[i + 2] = 9;
        pixel_data[i + 3] = 255;
    }
    Frame { frame_number: n, pixel_data, width: w as u32, height: h as u32, timestamp_us: n as u64 * 100_000 }
}

fn recorder(fail_after: Option<usize>) -> (Recorder, Rc<RefCell<Log>>) {
    let log = Rc::new(RefCell::new(Log::default()));
    (Recorder { log: log.clone(), fail_after }, log)
}

#[test]
fn crop_rect_is_minimal_over_the_whole_sequence() {
    let (rec, _log) = recorder(None);
    let mut r = Recropper::new(rec);
    r.set_metadata(metadata(8, 6, 3));
    assert_eq!(r.handle_frame(frame_with(0, 8, 6, &[(3, 2)])), Ok(()));
    assert_eq!(r.crop_rect(), Some(CropRect { left: 3, top: 2, right: 3, bottom: 2 }));
    assert_eq!(r.handle_frame(frame_with(1, 8, 6, &[(1, 4), (5, 1)])), Ok(()));
    assert_eq!(r.handle_frame(frame_with(2, 8, 6, &[])), Ok(()));
    assert_eq!(r.crop_rect(), Some(CropRect { left: 1, top: 1, right: 5, bottom: 4 }));
}

#[test]
fn faint_but_nonzero_alpha_counts_as_visible() {
    let (rec, _log) = recorder(None);
    let mut r = Recropper::new(rec);
    r.set_metadata(metadata(4, 4, 1));
    let mut f = frame_with(0, 4, 4, &[]);
    f.pixel_data[(2 * 4 + 3) * 4 + 3] = 1;
    assert_eq!(r.handle_frame(f), Ok(()));
    assert_eq!(r.crop_rect(), Some(CropRect { left: 3, top: 2, right: 3, bottom: 2 }));
}

#[test]
fn recrop_replays_cropped_frames_in_order() {
    let (rec, log) = recorder(None);
    let mut r = Recropper::new(rec);
    r.set_metadata(metadata(5, 5, 2));
    r.handle_frame(frame_with(0, 5, 5, &[(1, 1)])).unwrap();
    r.handle_frame(frame_with(1, 5, 5, &[(3, 2)])).unwrap();
    assert!(log.borrow().frames.is_empty());
    r.finish();
    let log = log.borrow();
    assert_eq!(log.metadata, vec![metadata(3, 2, 2)]);
    assert_eq!(log.frames.len(), 2);
    assert_eq!(log.frames[0].frame_number, 0);
    assert_eq!(log.frames[1].frame_number, 1);
    assert_eq!(log.frames[1].timestamp_us, 100_000);
    assert_eq!((log.frames[0].width, log.frames[0].height), (3, 2));
    // Frame 0: its opaque pixel (1, 1) is now at (0, 0).
    assert_eq!(&log.frames[0].pixel_data[0..4], &[11, 7, 9, 255]);
    assert_eq!(log.frames[0].pixel_data.len(), 3 * 2 * 4);
    // Frame 1: (3, 2) is now at (2, 1).
    let i = (1 * 3 + 2) * 4;
    assert_eq!(&log.frames[1].pixel_data[i..i + 4], &[32, 7, 9, 255]);
    assert_eq!(log.finished, 1);
}

#[test]
fn recrop_of_full_extent_is_a_no_op() {
    let (rec, log) = recorder(None);
    let mut r = Recropper::new(rec);
    r.set_metadata(metadata(3, 3, 2));
    let a = frame_with(0, 3, 3, &[(0, 0), (2, 2)]);
    let b = frame_with(1, 3, 3, &[(0, 2), (2, 0), (1, 1)]);
    r.handle_frame(a.clone()).unwrap();
    r.handle_frame(b.clone()).unwrap();
    r.finish();
    let log = log.borrow();
    assert_eq!(log.metadata, vec![metadata(3, 3, 2)]);
    assert_eq!(log.frames[0].pixel_data, a.pixel_data);
    assert_eq!(log.frames[1].pixel_data, b.pixel_data);
}

#[test]
fn crop_frame_cuts_the_rectangle() {
    let f = frame_with(4, 4, 3, &[(1, 0), (2, 1), (3, 2)]);
    let out = crop_frame(&f, 4, 3, CropRect { left: 1, top: 0, right: 2, bottom: 1 });
    assert_eq!((out.width, out.height, out.frame_number), (2, 2, 4));
    assert_eq!(out.pixel_data.len(), 16);
    assert_eq!(&out.pixel_data[0..4], &[10, 7, 9, 255]);
    assert_eq!(&out.pixel_data[12..16], &[21, 7, 9, 255]);
    assert_eq!(&out.pixel_data[4..12], &[0u8; 8]);
}

#[test]
fn recrop_without_metadata_fails_permanently() {
    let (rec, _log) = recorder(None);
    let mut r = Recropper::new(rec);
    assert_eq!(r.handle_frame(frame_with(0, 2, 2, &[(0, 0)])), Err(HandleFrameError::PermanentError));
}

#[test]
fn recrop_drops_a_frame_of_the_wrong_size() {
    let (rec, _log) = recorder(None);
    let mut r = Recropper::new(rec);
    r.set_metadata(metadata(4, 4, 1));
    assert_eq!(r.handle_frame(frame_with(0, 3, 4, &[(0, 0)])), Err(HandleFrameError::TemporaryError));
    let mut short = frame_with(0, 4, 4, &[]);
    short.pixel_data.pop();
    assert_eq!(r.handle_frame(short), Err(HandleFrameError::TemporaryError));
    assert_eq!(r.crop_rect(), None);
}

#[test]
fn recrop_replay_stops_on_permanent_failure() {
    let (rec, log) = recorder(Some(2));
    let mut r = Recropper::new(rec);
    r.set_metadata(metadata(2, 2, 4));
    for n in 0..4 {
        r.handle_frame(frame_with(n, 2, 2, &[(1, 1)])).unwrap();
    }
    r.finish();
    let log = log.borrow();
    assert_eq!(log.frames.len(), 2);
    assert_eq!(log.finished, 1);
}

#[test]
fn recrop_of_invisible_sequence_passes_frames_whole() {
    let (rec, log) = recorder(None);
    let mut r = Recropper::new(rec);
    r.set_metadata(metadata(2, 2, 1));
    r.handle_frame(frame_with(0, 2, 2, &[])).unwrap();
    assert_eq!(r.crop_rect(), None);
    r.finish();
    let log = log.borrow();
    assert_eq!(log.metadata, vec![metadata(2, 2, 1)]);
    assert_eq!(log.frames[0].pixel_data, vec![0u8; 16]);
}

#[test]
fn replay_reports_the_declared_size() {
    let (rec, _log) = recorder(None);
    let mut r = Recropper::new(rec);
    assert_eq!(r.replay(), None);
    let (rec, _log) = recorder(None);
    let mut r = Recropper::new(rec);
    r.set_metadata(metadata(6, 6, 1));
    r.handle_frame(frame_with(0, 6, 6, &[(2, 1), (4, 3)])).unwrap();
    assert_eq!(r.replay(), Some(metadata(3, 3, 1)));
    let (rec, _log) = recorder(None);
    let mut r = Recropper::new(rec);
    r.set_metadata(metadata(6, 6, 1));
    r.handle_frame(frame_with(0, 6, 6, &[])).unwrap();
    assert_eq!(r.replay(), Some(metadata(6, 6, 1)));
}
