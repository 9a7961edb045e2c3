//! Setting up the memory of a buffer: a temporary file of `size` bytes,
//! mapped twice in a row, so that byte `i` and byte `i + size` of the
//! mapping are the same byte of storage.
//!
//! The system calls are not made here. This module decides which step
//! comes next and, when a step fails, what has to be released; its caller
//! takes each step and reports how it went.

use crate::error::BufferError;
use vstd::prelude::*;

verus! {

/// The steps of the setup, in the order in which they are taken.
#[derive(Debug, Clone, Copy, PartialEq, Eq, Structural)]
pub enum Step {
    /// Create the temporary file.
    CreateFile,
    /// Remove the file's name, so that it goes away with its last user.
    Unlink,
    /// Give the file its length.
    Truncate,
    /// Map `2 * size` bytes of the file, which reserves the address range.
    MapPlaceholder,
    /// Unmap the upper `size` bytes of that range.
    UnmapUpperHalf,
    /// Map the file's first `size` bytes again, at the upper half.
    MapUpperHalf,
    /// Close the file; the mappings keep it alive.
    CloseFile,
}

/// How far the setup has come.
#[derive(Debug, Clone, Copy, PartialEq, Eq, Structural)]
pub enum Stage {
    /// The step that is to be taken next.
    Pending(Step),
    /// Both halves are mapped.
    Mapped,
    /// A step failed, and what was held has been handed out for release.
    Failed,
    /// The mapping stood, and has been handed out for release.
    Released,
}

/// A range of addresses.
#[derive(Debug, Clone, Copy, PartialEq, Eq, Structural)]
pub struct Span {
    /// The address of the first byte.
    pub addr: usize,
    /// The number of bytes.
    pub len: usize,
}

/// What has to be released after a step failed.
#[derive(Debug, Clone, Copy, PartialEq, Eq, Structural)]
pub struct Cleanup {
    /// Whether the file is open and has to be closed.
    pub close_file: bool,
    /// The mapping that is held.
    pub unmap: Option<Span>,
    /// An upper half that was mapped at the wrong address.
    pub unmap_stray: Option<Span>,
}

/// What the caller does next.
#[derive(Debug, Clone, Copy, PartialEq, Eq, Structural)]
pub enum Action {
    /// Take this step and report its result.
    Run(Step),
    /// The mapping stands.
    Finish,
    /// Release what is named and give up, with `BufferError::Allocation`.
    Abort(Cleanup),
}

/// The step that follows `step`, if any.
pub open spec fn step_after(step: Step) -> Option<Step> {
    match step {
        Step::CreateFile => Some(Step::Unlink),
        Step::Unlink => Some(Step::Truncate),
        Step::Truncate => Some(Step::MapPlaceholder),
        Step::MapPlaceholder => Some(Step::UnmapUpperHalf),
        Step::UnmapUpperHalf => Some(Step::MapUpperHalf),
        Step::MapUpperHalf => Some(Step::CloseFile),
        Step::CloseFile => None,
    }
}

/// What a mapping is: where it starts, how many bytes of storage it has,
/// and how far its setup has come.
pub struct MappingView {
    pub addr: int,
    pub size: int,
    pub stage: Stage,
}

impl MappingView {
    /// The invariant: some storage, and twice its size is addressable.
    pub open spec fn wf(self) -> bool {
        &&& 0 < self.size
        &&& 2 * self.size <= usize::MAX
        &&& 0 <= self.addr <= usize::MAX
    }

    /// Whether the file is open when `step` is about to be taken.
    pub open spec fn holds_file(step: Step) -> bool {
        step != Step::CreateFile
    }

    /// The mapping that is held when `step` is about to be taken.
    pub open spec fn held_span(self, step: Step) -> Option<Span> {
        match step {
            Step::UnmapUpperHalf | Step::CloseFile => Some(
                Span { addr: self.addr as usize, len: (2 * self.size) as usize },
            ),
            Step::MapUpperHalf => Some(Span { addr: self.addr as usize, len: self.size as usize }),
            _ => None,
        }
    }

    /// Whether `step` went well: it gave a value, and the upper half lies
    /// right behind the lower one.
    pub open spec fn step_ok(self, step: Step, result: Option<usize>) -> bool {
        match result {
            None => false,
            Some(value) => step == Step::MapUpperHalf ==> value == self.addr + self.size,
        }
    }

    /// What a failure of `step` leaves to release. A file that failed to
    /// close is not closed again.
    pub open spec fn cleanup(self, step: Step, result: Option<usize>) -> Cleanup {
        Cleanup {
            close_file: Self::holds_file(step) && step != Step::CloseFile,
            unmap: self.held_span(step),
            unmap_stray: match result {
                Some(value) if step == Step::MapUpperHalf => Some(
                    Span { addr: value, len: self.size as usize },
                ),
                _ => None,
            },
        }
    }

    /// The mapping after the pending step has given `result`.
    pub open spec fn after(self, result: Option<usize>) -> MappingView {
        match self.stage {
            Stage::Pending(step) => if self.step_ok(step, result) {
                MappingView {
                    addr: if step == Step::MapPlaceholder {
                        result.unwrap() as int
                    } else {
                        self.addr
                    },
                    stage: match step_after(step) {
                        Some(next) => Stage::Pending(next),
                        None => Stage::Mapped,
                    },
                    ..self
                }
            } else {
                MappingView { stage: Stage::Failed, ..self }
            },
            _ => self,
        }
    }

    /// What the caller does after the pending step has given `result`.
    pub open spec fn action(self, result: Option<usize>) -> Action {
        match self.stage {
            Stage::Pending(step) => if self.step_ok(step, result) {
                match step_after(step) {
                    Some(next) => Action::Run(next),
                    None => Action::Finish,
                }
            } else {
                Action::Abort(self.cleanup(step, result))
            },
            Stage::Mapped => Action::Finish,
            Stage::Failed | Stage::Released => Action::Abort(
                Cleanup { close_file: false, unmap: None, unmap_stray: None },
            ),
        }
    }

    /// The mapping after it was asked what to unmap.
    pub open spec fn released(self) -> MappingView {
        if self.stage == Stage::Mapped {
            MappingView { stage: Stage::Released, ..self }
        } else {
            self
        }
    }
}

/// A doubly mapped temporary file, from the request to its release.
#[derive(Debug)]
pub struct DoubleMappedTempFile {
    addr: usize,
    size: usize,
    stage: Stage,
}

impl View for DoubleMappedTempFile {
    type V = MappingView;

    closed spec fn view(&self) -> MappingView {
        MappingView { addr: self.addr as int, size: self.size as int, stage: self.stage }
    }
}

impl DoubleMappedTempFile {
    /// A mapping of `size` bytes of storage that waits for its first step.
    /// The size has to be a positive multiple of the page size whose double
    /// is addressable.
    pub fn new(size: usize, page_size: usize) -> (r: Result<DoubleMappedTempFile, BufferError>)
        requires
            page_size > 0,
        ensures
            match r {
                Ok(mapping) => {
                    &&& size > 0
                    &&& size % page_size == 0
                    &&& 2 * size <= usize::MAX
                    &&& mapping@.wf()
                    &&& mapping@.size == size
                    &&& mapping@.addr == 0
                    &&& mapping@.stage == Stage::Pending(Step::CreateFile)
                },
                Err(e) => {
                    &&& e == BufferError::Configuration
                    &&& (size == 0 || size % page_size != 0 || 2 * size > usize::MAX)
                },
            },
    {
        if size == 0 || size % page_size != 0 || size > usize::MAX / 2 {
            Err(BufferError::Configuration)
        } else {
            Ok(DoubleMappedTempFile { addr: 0, size, stage: Stage::Pending(Step::CreateFile) })
        }
    }

    /// Takes the result of the pending step: `None` where it failed, else
    /// the address that a mapping step gave, or any value for another step.
    /// Returns what to do next. Once the setup is over, nothing changes.
    pub fn step_done(&mut self, result: Option<usize>) -> (action: Action)
        requires
            old(self)@.wf(),
        ensures
            final(self)@ == old(self)@.after(result),
            action == old(self)@.action(result),
            final(self)@.wf(),
    {
        let step = match self.stage {
            Stage::Pending(step) => step,
            Stage::Mapped => {
                return Action::Finish;
            },
            Stage::Failed | Stage::Released => {
                return Action::Abort(Cleanup { close_file: false, unmap: None, unmap_stray: None });
            },
        };
        let ok = match result {
            None => false,
            Some(value) => match step {
                Step::MapUpperHalf => match self.addr.checked_add(self.size) {
                    Some(upper) => value == upper,
                    None => false,
                },
                _ => true,
            },
        };
        if !ok {
            let unmap = match step {
                Step::UnmapUpperHalf | Step::CloseFile => Some(
                    Span { addr: self.addr, len: 2 * self.size },
                ),
                Step::MapUpperHalf => Some(Span { addr: self.addr, len: self.size }),
                _ => None,
            };
            let unmap_stray = match (step, result) {
                (Step::MapUpperHalf, Some(value)) => Some(Span { addr: value, len: self.size }),
                _ => None,
            };
            let close_file = match step {
                Step::CreateFile | Step::CloseFile => false,
                _ => true,
            };
            self.stage = Stage::Failed;
            return Action::Abort(Cleanup { close_file, unmap, unmap_stray });
        }
        match step {
            Step::CreateFile => {
                self.stage = Stage::Pending(Step::Unlink);
                Action::Run(Step::Unlink)
            },
            Step::Unlink => {
                self.stage = Stage::Pending(Step::Truncate);
                Action::Run(Step::Truncate)
            },
            Step::Truncate => {
                self.stage = Stage::Pending(Step::MapPlaceholder);
                Action::Run(Step::MapPlaceholder)
            },
            Step::MapPlaceholder => {
                if let Some(value) = result {
                    self.addr = value;
                }
                self.stage = Stage::Pending(Step::UnmapUpperHalf);
                Action::Run(Step::UnmapUpperHalf)
            },
            Step::UnmapUpperHalf => {
                self.stage = Stage::Pending(Step::MapUpperHalf);
                Action::Run(Step::MapUpperHalf)
            },
            Step::MapUpperHalf => {
                self.stage = Stage::Pending(Step::CloseFile);
                Action::Run(Step::CloseFile)
            },
            Step::CloseFile => {
                self.stage = Stage::Mapped;
                Action::Finish
            },
        }
    }

    /// How far the setup has come.
    pub fn stage(&self) -> (stage: Stage)
        ensures
            stage == self@.stage,
    {
        self.stage
    }

    /// The address of the mapping's first byte, once the placeholder is mapped.
    pub fn addr(&self) -> (addr: usize)
        ensures
            addr == self@.addr,
    {
        self.addr
    }

    /// The number of bytes of storage.
    pub fn size(&self) -> (size: usize)
        ensures
            size == self@.size,
    {
        self.size
    }

    /// The error to report once a step has failed.
    pub fn failure(&self) -> (error: Option<BufferError>)
        ensures
            error == (if self@.stage == Stage::Failed {
                Some(BufferError::Allocation)
            } else {
                None
            }),
    {
        match self.stage {
            Stage::Failed => Some(BufferError::Allocation),
            _ => None,
        }
    }

    /// What to unmap when the mapping goes away: both halves at once where
    /// they stand, nothing otherwise. The span is handed out once: the
    /// mapping counts as released from then on.
    pub fn release(&mut self) -> (span: Option<Span>)
        requires
            old(self)@.wf(),
        ensures
            span == (if old(self)@.stage == Stage::Mapped {
                Some(Span { addr: old(self)@.addr as usize, len: (2 * old(self)@.size) as usize })
            } else {
                None
            }),
            final(self)@ == old(self)@.released(),
            final(self)@.wf(),
    {
        match self.stage {
            Stage::Mapped => {
                self.stage = Stage::Released;
                Some(Span { addr: self.addr, len: 2 * self.size })
            },
            _ => None,
        }
    }
}

/// Seven steps that go well lead from the request to the mapping, which
/// then starts where the placeholder was mapped.
pub proof fn lemma_setup_completes(start: MappingView, addr: usize, values: Seq<usize>)
    requires
        start.wf(),
        start.stage == Stage::Pending(Step::CreateFile),
        values.len() == 3,
        addr + start.size <= usize::MAX,
    ensures
        start.after(Some(values[0])).after(Some(values[1])).after(Some(values[2])).after(
            Some(addr),
        ).after(Some(values[0])).after(Some((addr + start.size) as usize)).after(
            Some(values[1]),
        ) == (MappingView { addr: addr as int, stage: Stage::Mapped, ..start }),
{
}

/// The mapping is handed out for release once: whoever asks again is
/// given nothing.
pub proof fn lemma_released_once(m: MappingView)
    ensures
        m.released().stage != Stage::Mapped,
        m.released().released() == m.released(),
{
}

/// A failure leaves the setup failed for good, and what is released then
/// is what was held: the open file, unless closing it was what failed,
/// and the mapping as far as it stood.
pub proof fn lemma_failure_releases(m: MappingView, step: Step, result: Option<usize>)
    requires
        m.wf(),
        m.stage == Stage::Pending(step),
        !m.step_ok(step, result),
    ensures
        m.after(result).stage == Stage::Failed,
        m.after(result).after(result) == m.after(result),
        m.action(result) == Action::Abort(m.cleanup(step, result)),
        m.cleanup(step, result).close_file == (MappingView::holds_file(step) && step
            != Step::CloseFile),
        m.cleanup(step, result).unmap == m.held_span(step),
{
}

} // verus!
