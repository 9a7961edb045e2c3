use futuresdr::double_mapped_temp_file::{
    Action, Cleanup, DoubleMappedTempFile, Span, Stage, Step,
};
use futuresdr::error::BufferError;

const PAGE: usize = 4096;
const BASE: usize = 0x7000_0000;

fn run_until(mapping: &mut DoubleMappedTempFile, last: Step) {
    let size = mapping.size();
    while let Stage::Pending(step) = mapping.stage() {
        if step == last {
            return;
        }
        let result = match step {
            Step::MapPlaceholder => Some(BASE),
            Step::MapUpperHalf => Some(BASE + size),
            _ => Some(0),
        };
        mapping.step_done(result);
    }
}

#[test]
fn tmp_file() {
    let ps = 3 * PAGE;
    let b = DoubleMappedTempFile::new(ps, PAGE);
    assert!(b.is_ok());
    let mut b = b.unwrap();

    assert_eq!(b.stage(), Stage::Pending(Step::CreateFile));
    assert_eq!(b.step_done(Some(3)), Action::Run(Step::Unlink));
    assert_eq!(b.step_done(Some(0)), Action::Run(Step::Truncate));
    assert_eq!(b.step_done(Some(0)), Action::Run(Step::MapPlaceholder));
    assert_eq!(b.step_done(Some(BASE)), Action::Run(Step::UnmapUpperHalf));
    assert_eq!(b.step_done(Some(0)), Action::Run(Step::MapUpperHalf));
    assert_eq!(b.step_done(Some(BASE + ps)), Action::Run(Step::CloseFile));
    assert_eq!(b.step_done(Some(0)), Action::Finish);
    assert_eq!(b.stage(), Stage::Mapped);
    assert_eq!(b.addr(), BASE);
    assert_eq!(b.size(), ps);
    assert_eq!(b.failure(), None);
    assert_eq!(b.step_done(None), Action::Finish);
    assert_eq!(b.stage(), Stage::Mapped);
    assert_eq!(b.release(), Some(Span { addr: BASE, len: 2 * ps }));
    assert_eq!(b.stage(), Stage::Released);
    assert_eq!(b.release(), None);
}

#[test]
fn size_must_be_whole_pages() {
    assert!(matches!(DoubleMappedTempFile::new(0, PAGE), Err(BufferError::Configuration)));
    assert!(matches!(DoubleMappedTempFile::new(PAGE + 1, PAGE), Err(BufferError::Configuration)));
    assert!(matches!(DoubleMappedTempFile::new(100, PAGE), Err(BufferError::Configuration)));
    let huge = (usize::MAX / 2 / PAGE + 1) * PAGE;
    assert!(matches!(DoubleMappedTempFile::new(huge, PAGE), Err(BufferError::Configuration)));
    assert!(DoubleMappedTempFile::new(PAGE, PAGE).is_ok());
}

fn abort_at(step: Step, result: Option<usize>) -> (Action, DoubleMappedTempFile) {
    let mut mapping = DoubleMappedTempFile::new(2 * PAGE, PAGE).unwrap();
    run_until(&mut mapping, step);
    assert_eq!(mapping.stage(), Stage::Pending(step));
    assert_eq!(mapping.release(), None);
    let action = mapping.step_done(result);
    (action, mapping)
}

#[test]
fn failed_step_releases_what_is_held() {
    let size = 2 * PAGE;
    let nothing = Cleanup { close_file: false, unmap: None, unmap_stray: None };
    let file = Cleanup { close_file: true, unmap: None, unmap_stray: None };
    let both = Some(Span { addr: BASE, len: 2 * size });
    let lower = Some(Span { addr: BASE, len: size });

    assert_eq!(abort_at(Step::CreateFile, None).0, Action::Abort(nothing));
    assert_eq!(abort_at(Step::Unlink, None).0, Action::Abort(file));
    assert_eq!(abort_at(Step::Truncate, None).0, Action::Abort(file));
    assert_eq!(abort_at(Step::MapPlaceholder, None).0, Action::Abort(file));
    assert_eq!(
        abort_at(Step::UnmapUpperHalf, None).0,
        Action::Abort(Cleanup { close_file: true, unmap: both, unmap_stray: None })
    );
    assert_eq!(
        abort_at(Step::MapUpperHalf, None).0,
        Action::Abort(Cleanup { close_file: true, unmap: lower, unmap_stray: None })
    );
    assert_eq!(
        abort_at(Step::CloseFile, None).0,
        Action::Abort(Cleanup { close_file: false, unmap: both, unmap_stray: None })
    );
}

#[test]
fn upper_half_at_the_wrong_address_is_a_failure() {
    let size = 2 * PAGE;
    let (action, mut mapping) = abort_at(Step::MapUpperHalf, Some(BASE + size + PAGE));
    assert_eq!(
        action,
        Action::Abort(Cleanup {
            close_file: true,
            unmap: Some(Span { addr: BASE, len: size }),
            unmap_stray: Some(Span { addr: BASE + size + PAGE, len: size }),
        })
    );
    assert_eq!(mapping.stage(), Stage::Failed);
    assert_eq!(mapping.failure(), Some(BufferError::Allocation));
    assert_eq!(mapping.release(), None);
    assert_eq!(
        mapping.step_done(Some(1)),
        Action::Abort(Cleanup { close_file: false, unmap: None, unmap_stray: None })
    );
    assert_eq!(mapping.stage(), Stage::Failed);
}

#[test]
fn placeholder_at_the_top_of_memory_cannot_take_its_upper_half() {
    let mut mapping = DoubleMappedTempFile::new(PAGE, PAGE).unwrap();
    run_until(&mut mapping, Step::MapPlaceholder);
    let top = usize::MAX - PAGE + 1;
    assert_eq!(mapping.step_done(Some(top)), Action::Run(Step::UnmapUpperHalf));
    assert_eq!(mapping.step_done(Some(0)), Action::Run(Step::MapUpperHalf));
    assert!(matches!(mapping.step_done(Some(0)), Action::Abort(_)));
}
