//! Preview artifacts and the pending preview render. A render is identified
//! by a job id, so output of a superseded render is never surfaced.
use vstd::prelude::*;

verus! {

/// One rendered preview: the renderer's combined output and the target line
/// number, used to compute the vertical scroll. `failed` marks the error
/// placeholder kept when the renderer's output could not be read.
pub struct Preview {
    pub text: Vec<u8>,
    pub line_number: u32,
    pub failed: bool,
}

/// The mathematical image of a `Preview`.
#[verifier::ext_equal]
pub struct PreviewModel {
    pub text: Seq<u8>,
    pub line_number: u32,
    pub failed: bool,
}

impl View for Preview {
    type V = PreviewModel;

    open spec fn view(&self) -> PreviewModel {
        PreviewModel { text: self.text@, line_number: self.line_number, failed: self.failed }
    }
}

impl Preview {
    /// An artifact for a render that completed with `text`.
    pub fn new(text: Vec<u8>, line_number: u32) -> (p: Preview)
        ensures
            p@ == (PreviewModel { text: text@, line_number, failed: false }),
    {
        Preview { text, line_number, failed: false }
    }

    /// Vertical scroll offset that centres the target line in a viewport of
    /// `height` rows: `max(0, line_number - height / 2)`, clamped at the top.
    pub fn scroll_offset(&self, height: u32) -> (r: u32)
        ensures
            r == if self.line_number > height / 2 {
                self.line_number - height / 2
            } else {
                0
            },
    {
        let half = height / 2;
        if self.line_number > half {
            self.line_number - half
        } else {
            0
        }
    }
}

/// What one poll of a pending render hands back: the renderer's combined
/// output, or a failure (the process's output could not be read).
pub enum PreviewOutcome {
    Output(Vec<u8>),
    Failed,
}

pub enum PreviewOutcomeModel {
    Output(Seq<u8>),
    Failed,
}

impl View for PreviewOutcome {
    type V = PreviewOutcomeModel;

    open spec fn view(&self) -> PreviewOutcomeModel {
        match self {
            PreviewOutcome::Output(t) => PreviewOutcomeModel::Output(t@),
            PreviewOutcome::Failed => PreviewOutcomeModel::Failed,
        }
    }
}

/// The pending preview render for one selected target.
pub struct PreviewJob {
    id: u64,
    line_number: u32,
}

/// The mathematical image of a `PreviewJob`.
#[verifier::ext_equal]
pub struct PreviewJobModel {
    pub id: u64,
    pub line_number: u32,
}

impl View for PreviewJob {
    type V = PreviewJobModel;

    closed spec fn view(&self) -> PreviewJobModel {
        PreviewJobModel { id: self.id, line_number: self.line_number }
    }
}

/// The artifact a completed render yields: the output on success, an error
/// placeholder on failure, either way bound to the render's target line.
pub open spec fn preview_artifact(j: PreviewJobModel, out: PreviewOutcomeModel) -> PreviewModel {
    match out {
        PreviewOutcomeModel::Output(t) => PreviewModel {
            text: t,
            line_number: j.line_number,
            failed: false,
        },
        PreviewOutcomeModel::Failed => PreviewModel {
            text: Seq::empty(),
            line_number: j.line_number,
            failed: true,
        },
    }
}

impl PreviewJob {
    /// A pending render with the given id, bound to one target line.
    pub fn new(id: u64, line_number: u32) -> (j: PreviewJob)
        ensures
            j@ == (PreviewJobModel { id, line_number }),
    {
        PreviewJob { id, line_number }
    }

    /// The id of this render.
    pub fn id(&self) -> (r: u64)
        ensures
            r == self@.id,
    {
        self.id
    }

    /// Accepts one completed render, without blocking: an artifact when the
    /// outcome carries this job's id, nothing when it belongs to a superseded
    /// render — such output is dropped unread.
    pub fn try_recv_preview(&self, id: u64, outcome: PreviewOutcome) -> (r: Option<Preview>)
        ensures
            id == self@.id ==> r is Some && (r->0)@ == preview_artifact(self@, outcome@),
            id != self@.id ==> r is None,
    {
        if id != self.id {
            return None;
        }
        match outcome {
            PreviewOutcome::Output(t) => Some(Preview::new(t, self.line_number)),
            PreviewOutcome::Failed => Some(
                Preview { text: Vec::new(), line_number: self.line_number, failed: true },
            ),
        }
    }
}

} // verus!
