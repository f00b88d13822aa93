//! Spoken questions about selected text: one recording, one answer per turn.

use vstd::prelude::*;
use vstd::string::*;
use crate::closeout::DictationSession;
use crate::delivery::InsertStatus;
use crate::preferences::PolishMode;
use crate::session::SessionId;
use crate::text::{blank, is_blank, trim, trimmed};

verus! {

/// Shortest time between two reports of the recording level.
pub const LEVEL_EMIT_MIN_INTERVAL_MS: u64 = 33;

/// Where a question stands.
#[derive(Clone, Copy, Debug, PartialEq, Eq, Structural)]
pub enum QaPhase {
    Idle,
    Recording,
    Processing,
}

/// One message of the conversation.
#[derive(Debug)]
pub struct QaChatMessage {
    pub role: String,
    pub content: String,
}

/// The conversation and the question that is being asked.
#[derive(Debug)]
pub struct QaSessionState {
    pub session_id: SessionId,
    pub phase: QaPhase,
    pub panel_visible: bool,
    /// The panel stays open by itself.
    pub pinned: bool,
    pub cancelled: bool,
    /// An answer that is being written is to stop.
    pub stream_cancelled: bool,
    pub selection: Option<String>,
    pub front_app: Option<String>,
    pub messages: Vec<QaChatMessage>,
}

/// A conversation in pairs: a question of the user, an answer of the assistant.
pub open spec fn paired(messages: Seq<QaChatMessage>) -> bool {
    &&& messages.len() % 2 == 0
    &&& forall|i: int|
        0 <= i < messages.len() ==> (#[trigger] messages[i]).role@ == (if i % 2 == 0 {
            "user"@
        } else {
            "assistant"@
        })
}

/// A conversation that ends in a question without an answer.
pub open spec fn asked(messages: Seq<QaChatMessage>) -> bool {
    messages.len() > 0 && paired(messages.drop_last()) && messages.last().role@ == "user"@
}

/// What the model is asked: the trimmed question, and in the first turn the selected text
/// before it, where something is selected.
pub open spec fn question_text(
    first_turn: bool,
    selection: Option<String>,
    question: Seq<char>,
) -> Seq<char> {
    if first_turn && selection is Some && !blank(selection->0@) {
        "# 选区原文\n"@ + trimmed(selection->0@) + "\n\n# 我的问题\n"@ + question
    } else {
        question
    }
}

/// Whether an open panel or a running question takes the Escape key.
pub open spec fn takes_escape(state: QaSessionState) -> bool {
    state.panel_visible || state.phase != QaPhase::Idle
}

/// What the end of a recording leads to.
#[derive(Clone, Copy, Debug, PartialEq, Eq, Structural)]
pub enum QaEndStep {
    /// Nothing was being recorded.
    NotRecording,
    /// The recorder stops, and there is no recogniser to wait for.
    NoRecogniser,
    /// The recorder stops, the recogniser gets the last frame, and its result is awaited.
    AwaitRecognition,
}

/// What came of the recognition of a question.
#[derive(Debug)]
pub enum QaRecognition {
    Text(String),
    Failed,
    TimedOut,
}

/// Why a question got no answer.
#[derive(Clone, Copy, Debug, PartialEq, Eq, Structural)]
pub enum QaTurnFailure {
    RecognitionFailed,
    RecognitionTimedOut,
    AnswerFailed,
}

impl QaTurnFailure {
    /// What the user is told, given the reason in `detail`.
    pub open spec fn notice(self, detail: Seq<char>) -> Seq<char> {
        match self {
            QaTurnFailure::RecognitionFailed => "识别失败: "@ + detail,
            QaTurnFailure::RecognitionTimedOut => "识别超时"@,
            QaTurnFailure::AnswerFailed => "回答失败: "@ + detail,
        }
    }

    /// What the user is told.
    pub fn user_notice(self, detail: &str) -> (r: String)
        ensures
            r@ == self.notice(detail@),
    {
        match self {
            QaTurnFailure::RecognitionFailed => "识别失败: ".to_owned().concat(detail),
            QaTurnFailure::RecognitionTimedOut => "识别超时".to_owned(),
            QaTurnFailure::AnswerFailed => "回答失败: ".to_owned().concat(detail),
        }
    }

    /// The error that the end of the question is reported with.
    pub fn error(self, detail: &str) -> (r: String)
        ensures
            r@ == (if self == QaTurnFailure::RecognitionTimedOut {
                "global timeout"@
            } else {
                detail@
            }),
    {
        match self {
            QaTurnFailure::RecognitionTimedOut => "global timeout".to_owned(),
            _ => detail.to_owned(),
        }
    }

    /// Whether a recogniser still runs that has to be cancelled.
    pub fn cancels_recogniser(self) -> (r: bool)
        ensures
            r == (self == QaTurnFailure::RecognitionTimedOut),
    {
        self == QaTurnFailure::RecognitionTimedOut
    }
}

/// What the panel shows.
#[derive(Clone, Copy, Debug, PartialEq, Eq, Structural)]
pub enum QaPanelState {
    Recording,
    Loading,
    Thinking,
    Answer,
    Error,
    Idle,
}

impl QaPanelState {
    /// The name under which the panel knows it.
    pub fn kind(self) -> (r: &'static str)
        ensures
            r@ == (match self {
                QaPanelState::Recording => "recording"@,
                QaPanelState::Loading => "loading"@,
                QaPanelState::Thinking => "thinking"@,
                QaPanelState::Answer => "answer"@,
                QaPanelState::Error => "error"@,
                QaPanelState::Idle => "idle"@,
            }),
    {
        match self {
            QaPanelState::Recording => "recording",
            QaPanelState::Loading => "loading",
            QaPanelState::Thinking => "thinking",
            QaPanelState::Answer => "answer",
            QaPanelState::Error => "error",
            QaPanelState::Idle => "idle",
        }
    }
}

/// What follows once a question was recognised.
#[derive(Clone, Copy, Debug, PartialEq, Eq, Structural)]
pub enum QaTranscriptDecision {
    /// There is no question, and the failure is shown.
    Fail(QaTurnFailure),
    /// The user cancelled or said nothing: the panel goes quiet.
    GoQuiet,
    /// The model is asked.
    AskModel,
}

impl QaTranscriptDecision {
    /// What the panel shows from then on.
    pub fn panel(self) -> (r: QaPanelState)
        ensures
            r == (match self {
                QaTranscriptDecision::Fail(_) => QaPanelState::Error,
                QaTranscriptDecision::GoQuiet => QaPanelState::Idle,
                QaTranscriptDecision::AskModel => QaPanelState::Thinking,
            }),
    {
        match self {
            QaTranscriptDecision::Fail(_) => QaPanelState::Error,
            QaTranscriptDecision::GoQuiet => QaPanelState::Idle,
            QaTranscriptDecision::AskModel => QaPanelState::Thinking,
        }
    }
}

/// What follows once the model answered.
#[derive(Clone, Copy, Debug, PartialEq, Eq, Structural)]
pub enum QaAnswerDecision {
    /// The question is taken back and the failure shown.
    ShowFailure,
    /// The question is taken back and the panel goes quiet.
    GoQuiet,
    /// The answer is shown, and the turn is kept in the history where the user wants that.
    ShowAnswer,
}

impl QaAnswerDecision {
    /// What the panel shows from then on.
    pub fn panel(self) -> (r: QaPanelState)
        ensures
            r == (match self {
                QaAnswerDecision::ShowFailure => QaPanelState::Error,
                QaAnswerDecision::GoQuiet => QaPanelState::Idle,
                QaAnswerDecision::ShowAnswer => QaPanelState::Answer,
            }),
    {
        match self {
            QaAnswerDecision::ShowFailure => QaPanelState::Error,
            QaAnswerDecision::GoQuiet => QaPanelState::Idle,
            QaAnswerDecision::ShowAnswer => QaPanelState::Answer,
        }
    }
}

/// What the beginning of a question waits for.
#[derive(Clone, Copy, Debug, PartialEq, Eq, Structural)]
pub enum QaBeginStage {
    Credentials,
    Microphone,
    Recorder,
    Recogniser,
    Done,
}

/// What is to be done next when a question begins.
#[derive(Clone, Copy, Debug, PartialEq, Eq, Structural)]
pub enum QaBeginAction {
    CheckMicrophone,
    StartRecorder,
    OpenRecogniser,
    /// Hand the buffered audio over and show that recording is on.
    Attach,
    /// The user closed the panel meanwhile: cancel recogniser and recorder quietly.
    AbortQuietly,
    /// Undo what was set up, as far as it was, and show the failure.
    Fail(QaBeginFailure),
}

/// Why a question could not begin.
#[derive(Clone, Copy, Debug, PartialEq, Eq, Structural)]
pub enum QaBeginFailure {
    CredentialsMissing,
    MicrophoneDenied,
    RecorderFailed,
    RecogniserFailed,
}

impl QaBeginFailure {
    /// What the user is told, given the reason in `detail`.
    pub open spec fn notice(self, detail: Seq<char>) -> Seq<char> {
        match self {
            QaBeginFailure::CredentialsMissing => "缺少 ASR 凭据："@ + detail,
            QaBeginFailure::MicrophoneDenied => detail,
            QaBeginFailure::RecorderFailed => "录音启动失败: "@ + detail,
            QaBeginFailure::RecogniserFailed => "ASR 连接失败: "@ + detail,
        }
    }

    /// What the user is told.
    pub fn user_notice(self, detail: &str) -> (r: String)
        ensures
            r@ == self.notice(detail@),
    {
        match self {
            QaBeginFailure::CredentialsMissing => "缺少 ASR 凭据：".to_owned().concat(detail),
            QaBeginFailure::MicrophoneDenied => detail.to_owned(),
            QaBeginFailure::RecorderFailed => "录音启动失败: ".to_owned().concat(detail),
            QaBeginFailure::RecogniserFailed => "ASR 连接失败: ".to_owned().concat(detail),
        }
    }

    /// Whether a recogniser was set up that has to be cancelled.
    pub fn cancels_recogniser(self) -> (r: bool)
        ensures
            r == (self == QaBeginFailure::RecogniserFailed),
    {
        self == QaBeginFailure::RecogniserFailed
    }
}

impl QaSessionState {
    /// Begins a question: the panel must be open and no other question running.
    pub fn begin_qa_session(&mut self, session_id: SessionId, front_app: Option<String>) -> (r: bool)
        ensures
            r == (old(self).panel_visible && old(self).phase == QaPhase::Idle),
            !r ==> *final(self) == *old(self),
            r ==> *final(self) == (QaSessionState {
                session_id,
                phase: QaPhase::Recording,
                cancelled: false,
                stream_cancelled: false,
                selection: None,
                front_app,
                ..*old(self)
            }),
    {
        if !self.panel_visible || self.phase != QaPhase::Idle {
            return false;
        }
        self.phase = QaPhase::Recording;
        self.cancelled = false;
        self.session_id = session_id;
        self.front_app = front_app;
        self.selection = None;
        self.stream_cancelled = false;
        true
    }

    /// Takes over the text that is selected while the question is asked.
    pub fn selection_captured(&mut self, selection: Option<String>)
        ensures
            *final(self) == (QaSessionState { selection, ..*old(self) }),
    {
        self.selection = selection;
    }

    /// Lets the panel stay open by itself, or not.
    pub fn qa_window_pin(&mut self, pinned: bool)
        ensures
            *final(self) == (QaSessionState { pinned, ..*old(self) }),
    {
        self.pinned = pinned;
    }

    /// The step of the beginning that follows an outside result.  A failure resets the question
    /// and leaves the conversation alone.
    pub fn begin_step(&mut self, stage: QaBeginStage, succeeded: bool) -> (r: (
        QaBeginStage,
        QaBeginAction,
    ))
        requires
            stage != QaBeginStage::Done,
        ensures
            r == begin_after(stage, succeeded, old(self).cancelled),
            r.1 is Fail ==> *final(self) == failed(*old(self)),
            r.1 == QaBeginAction::AbortQuietly ==> *final(self) == (QaSessionState {
                phase: QaPhase::Idle,
                ..*old(self)
            }),
            !(r.1 is Fail) && r.1 != QaBeginAction::AbortQuietly ==> *final(self) == *old(self),
    {
        if !succeeded {
            self.finish_qa_with_error();
            let failure: QaBeginFailure = match stage {
                QaBeginStage::Credentials => QaBeginFailure::CredentialsMissing,
                QaBeginStage::Microphone => QaBeginFailure::MicrophoneDenied,
                QaBeginStage::Recorder => QaBeginFailure::RecorderFailed,
                _ => QaBeginFailure::RecogniserFailed,
            };
            return (QaBeginStage::Done, QaBeginAction::Fail(failure));
        }
        match stage {
            QaBeginStage::Credentials => (
                QaBeginStage::Microphone,
                QaBeginAction::CheckMicrophone,
            ),
            QaBeginStage::Microphone => (QaBeginStage::Recorder, QaBeginAction::StartRecorder),
            QaBeginStage::Recorder => (QaBeginStage::Recogniser, QaBeginAction::OpenRecogniser),
            _ => {
                if self.cancelled {
                    self.phase = QaPhase::Idle;
                    (QaBeginStage::Done, QaBeginAction::AbortQuietly)
                } else {
                    (QaBeginStage::Done, QaBeginAction::Attach)
                }
            },
        }
    }

    /// Ends the recording of a question.  Without a recogniser the question is over at once,
    /// without a word.
    pub fn end_qa_session(&mut self, recogniser_present: bool) -> (r: QaEndStep)
        ensures
            r == (if old(self).phase != QaPhase::Recording {
                QaEndStep::NotRecording
            } else if recogniser_present {
                QaEndStep::AwaitRecognition
            } else {
                QaEndStep::NoRecogniser
            }),
            *final(self) == (QaSessionState {
                phase: match r {
                    QaEndStep::NotRecording => old(self).phase,
                    QaEndStep::NoRecogniser => QaPhase::Idle,
                    QaEndStep::AwaitRecognition => QaPhase::Processing,
                },
                ..*old(self)
            }),
    {
        if self.phase != QaPhase::Recording {
            return QaEndStep::NotRecording;
        }
        if !recogniser_present {
            self.phase = QaPhase::Idle;
            return QaEndStep::NoRecogniser;
        }
        self.phase = QaPhase::Processing;
        QaEndStep::AwaitRecognition
    }

    /// Takes what came of the recognition.  A failure is shown even where the user cancelled
    /// meanwhile; otherwise the question is asked, unless it was cancelled or is empty.
    pub fn take_recognition(&mut self, recognition: &QaRecognition) -> (r: QaTranscriptDecision)
        ensures
            r == (match *recognition {
                QaRecognition::Failed => QaTranscriptDecision::Fail(
                    QaTurnFailure::RecognitionFailed,
                ),
                QaRecognition::TimedOut => QaTranscriptDecision::Fail(
                    QaTurnFailure::RecognitionTimedOut,
                ),
                QaRecognition::Text(text) => if old(self).cancelled || blank(text@) {
                    QaTranscriptDecision::GoQuiet
                } else {
                    QaTranscriptDecision::AskModel
                },
            }),
            r is Fail ==> *final(self) == failed(*old(self)),
            r == QaTranscriptDecision::GoQuiet ==> *final(self) == quiet(*old(self)),
            r == QaTranscriptDecision::AskModel ==> question_taken(
                *old(self),
                recognition->Text_0@,
                *final(self),
            ),
    {
        match recognition {
            QaRecognition::Failed => {
                self.finish_qa_with_error();
                QaTranscriptDecision::Fail(QaTurnFailure::RecognitionFailed)
            },
            QaRecognition::TimedOut => {
                self.finish_qa_with_error();
                QaTranscriptDecision::Fail(QaTurnFailure::RecognitionTimedOut)
            },
            QaRecognition::Text(text) => {
                if self.cancelled || is_blank(text.as_str()) {
                    self.finish_qa_idle_silently();
                    QaTranscriptDecision::GoQuiet
                } else {
                    self.take_question(text.as_str());
                    QaTranscriptDecision::AskModel
                }
            },
        }
    }

    fn take_question(&mut self, transcript: &str)
        ensures
            question_taken(*old(self), transcript@, *final(self)),
    {
        let question = trim(transcript);
        let first_turn: bool = self.messages.len() == 0;
        let content: String = match &self.selection {
            Some(selected) => if first_turn && !is_blank(selected.as_str()) {
                "# 选区原文\n".to_owned().concat(trim(selected.as_str())).concat(
                    "\n\n# 我的问题\n",
                ).concat(question)
            } else {
                question.to_owned()
            },
            None => question.to_owned(),
        };
        self.messages.push(QaChatMessage { role: "user".to_owned(), content });
        proof {
            assert(self.messages@.drop_last() == old(self).messages@);
        }
    }

    /// Settles a turn.  A failed or cancelled turn takes its question back, so that asking again
    /// does not repeat it.
    pub fn settle_answer(&mut self, answer: Option<String>) -> (r: QaAnswerDecision)
        ensures
            r == answer_decision(*old(self), answer is Some),
            r != QaAnswerDecision::ShowAnswer ==> final(self).messages@ == without_last(
                old(self).messages@,
            ),
            r == QaAnswerDecision::ShowFailure ==> *final(self) == (QaSessionState {
                messages: final(self).messages,
                ..failed(*old(self))
            }),
            r == QaAnswerDecision::GoQuiet ==> *final(self) == (QaSessionState {
                messages: final(self).messages,
                ..quiet(*old(self))
            }),
            r == QaAnswerDecision::ShowAnswer ==> {
                &&& final(self).messages@.len() == old(self).messages@.len() + 1
                &&& final(self).messages@.drop_last() == old(self).messages@
                &&& final(self).messages@.last().role@ == "assistant"@
                &&& final(self).messages@.last().content == answer->0
                &&& *final(self) == (QaSessionState {
                    phase: QaPhase::Idle,
                    messages: final(self).messages,
                    ..*old(self)
                })
            },
    {
        match answer {
            None => {
                let _question = self.messages.pop();
                self.finish_qa_with_error();
                QaAnswerDecision::ShowFailure
            },
            Some(content) => {
                if self.cancelled {
                    let _question = self.messages.pop();
                    self.finish_qa_idle_silently();
                    return QaAnswerDecision::GoQuiet;
                }
                self.messages.push(QaChatMessage { role: "assistant".to_owned(), content });
                proof {
                    assert(self.messages@.drop_last() == old(self).messages@);
                }
                self.phase = QaPhase::Idle;
                QaAnswerDecision::ShowAnswer
            },
        }
    }

    /// Resets the question after a failure.  The panel stays, and so does the conversation.
    pub fn finish_qa_with_error(&mut self)
        ensures
            *final(self) == failed(*old(self)),
    {
        self.phase = QaPhase::Idle;
        self.cancelled = false;
    }

    /// Resets the question quietly.  The panel stays, and so does the conversation.
    pub fn finish_qa_idle_silently(&mut self)
        ensures
            *final(self) == quiet(*old(self)),
    {
        self.phase = QaPhase::Idle;
        self.cancelled = false;
        self.selection = None;
    }

    /// Cancels a running question.  While an answer is being made, the question stays in that
    /// phase until the answer is discarded.
    pub fn cancel_qa_session(&mut self) -> (r: bool)
        ensures
            r == (old(self).phase != QaPhase::Idle),
            *final(self) == after_cancel(*old(self)),
    {
        if self.phase == QaPhase::Idle {
            return false;
        }
        self.cancelled = true;
        self.stream_cancelled = true;
        if self.phase != QaPhase::Processing {
            self.phase = QaPhase::Idle;
        }
        true
    }

    /// Whether a piece of an answer, or a failure of the recorder, belongs to the question that
    /// is being asked now.
    pub fn is_current(&self, captured: SessionId) -> (r: bool)
        ensures
            r == (self.session_id == captured),
    {
        self.session_id == captured
    }

    /// Takes a failure of the recorder: it ends the question it belongs to, with the words that
    /// are shown for it; one of an earlier question changes nothing.
    pub fn recorder_failed(&mut self, captured: SessionId, reason: &str) -> (r: Option<String>)
        ensures
            old(self).session_id == captured ==> {
                &&& r is Some
                &&& r->0@ == "录音设备异常: "@ + reason@
                &&& *final(self) == failed(*old(self))
            },
            old(self).session_id != captured ==> r is None && *final(self) == *old(self),
    {
        if !self.is_current(captured) {
            return None;
        }
        self.finish_qa_with_error();
        Some("录音设备异常: ".to_owned().concat(reason))
    }

    /// Whether an open panel or a running question takes the Escape key.
    pub fn qa_active(&self) -> (r: bool)
        ensures
            r == takes_escape(*self),
    {
        self.panel_visible || self.phase != QaPhase::Idle
    }

    /// Whether a recording level is reported: only while recording, and not too often.
    pub fn level_due(&self, last_emit_at: &mut Option<u64>, now: u64) -> (r: bool)
        ensures
            r == (self.phase == QaPhase::Recording && (*old(last_emit_at) matches Some(last)
                ==> crate::endpoint::past(now, last) >= 33)),
            *final(last_emit_at) == (if r {
                Some(now)
            } else {
                *old(last_emit_at)
            }),
    {
        if self.phase != QaPhase::Recording {
            return false;
        }
        let too_soon: bool = match *last_emit_at {
            Some(last) => now.saturating_sub(last) < LEVEL_EMIT_MIN_INTERVAL_MS,
            None => false,
        };
        if too_soon {
            return false;
        }
        *last_emit_at = Some(now);
        true
    }
}

/// The state after a question ended quietly.
pub open spec fn quiet(state: QaSessionState) -> QaSessionState {
    QaSessionState { phase: QaPhase::Idle, cancelled: false, selection: None, ..state }
}

/// The state after a question failed.
pub open spec fn failed(state: QaSessionState) -> QaSessionState {
    QaSessionState { phase: QaPhase::Idle, cancelled: false, ..state }
}

/// The state after the user cancelled: a running question is marked, its stream stops, and only
/// an answer that is being made keeps its phase.
pub open spec fn after_cancel(state: QaSessionState) -> QaSessionState {
    if state.phase == QaPhase::Idle {
        state
    } else {
        QaSessionState {
            cancelled: true,
            stream_cancelled: true,
            phase: if state.phase == QaPhase::Processing {
                QaPhase::Processing
            } else {
                QaPhase::Idle
            },
            ..state
        }
    }
}

/// The conversation has the recognised question at its end, and nothing else changed.
pub open spec fn question_taken(
    before: QaSessionState,
    transcript: Seq<char>,
    after: QaSessionState,
) -> bool {
    &&& after.messages@.len() == before.messages@.len() + 1
    &&& after.messages@.drop_last() == before.messages@
    &&& after.messages@.last().role@ == "user"@
    &&& after.messages@.last().content@ == question_text(
        before.messages@.len() == 0,
        before.selection,
        trimmed(transcript),
    )
    &&& after == (QaSessionState { messages: after.messages, ..before })
}

/// What follows once the model answered, or failed to.
pub open spec fn answer_decision(state: QaSessionState, answered: bool) -> QaAnswerDecision {
    if !answered {
        QaAnswerDecision::ShowFailure
    } else if state.cancelled {
        QaAnswerDecision::GoQuiet
    } else {
        QaAnswerDecision::ShowAnswer
    }
}

/// A conversation without its last message, where it has one: a closed panel leaves none.
pub open spec fn without_last(messages: Seq<QaChatMessage>) -> Seq<QaChatMessage> {
    if messages.len() == 0 {
        messages
    } else {
        messages.drop_last()
    }
}

/// The step of the beginning that follows an outside result.
pub open spec fn begin_after(stage: QaBeginStage, succeeded: bool, cancelled: bool) -> (
    QaBeginStage,
    QaBeginAction,
) {
    match stage {
        QaBeginStage::Credentials => if succeeded {
            (QaBeginStage::Microphone, QaBeginAction::CheckMicrophone)
        } else {
            (QaBeginStage::Done, QaBeginAction::Fail(QaBeginFailure::CredentialsMissing))
        },
        QaBeginStage::Microphone => if succeeded {
            (QaBeginStage::Recorder, QaBeginAction::StartRecorder)
        } else {
            (QaBeginStage::Done, QaBeginAction::Fail(QaBeginFailure::MicrophoneDenied))
        },
        QaBeginStage::Recorder => if succeeded {
            (QaBeginStage::Recogniser, QaBeginAction::OpenRecogniser)
        } else {
            (QaBeginStage::Done, QaBeginAction::Fail(QaBeginFailure::RecorderFailed))
        },
        _ => if !succeeded {
            (QaBeginStage::Done, QaBeginAction::Fail(QaBeginFailure::RecogniserFailed))
        } else if cancelled {
            (QaBeginStage::Done, QaBeginAction::AbortQuietly)
        } else {
            (QaBeginStage::Done, QaBeginAction::Attach)
        },
    }
}

/// The history entry of a turn, where the user wants one.
pub fn qa_history_entry(
    save_history: bool,
    id: String,
    created_at: String,
    transcript: &str,
    answer: String,
    front_app: Option<String>,
    duration_ms: u64,
) -> (r: Option<DictationSession>)
    ensures
        r is Some == save_history,
        r matches Some(entry) ==> {
            &&& entry.id == id
            &&& entry.created_at == created_at
            &&& entry.raw_transcript@ == trimmed(transcript@)
            &&& entry.final_text == answer
            &&& entry.mode == PolishMode::Raw
            &&& entry.app_bundle_id is None
            &&& entry.app_name == front_app
            &&& entry.insert_status == InsertStatus::CopiedFallback
            &&& entry.error_code is Some
            &&& entry.error_code->0@ == "qaSession"@
            &&& entry.duration_ms == Some(duration_ms)
            &&& entry.dictionary_entry_count is None
            &&& entry.has_audio_recording is None
            &&& entry.embedded_audio_stats is None
        },
{
    if !save_history {
        return None;
    }
    Some(
        DictationSession {
            id,
            created_at,
            raw_transcript: trim(transcript).to_owned(),
            final_text: answer,
            mode: PolishMode::Raw,
            app_bundle_id: None,
            app_name: front_app,
            insert_status: InsertStatus::CopiedFallback,
            error_code: Some("qaSession".to_owned()),
            duration_ms: Some(duration_ms),
            dictionary_entry_count: None,
            has_audio_recording: None,
            embedded_audio_stats: None,
        },
    )
}

/// A question that is taken into a paired conversation and answered leaves a paired
/// conversation; one that fails or is cancelled leaves the conversation as it was.
pub proof fn a_turn_keeps_the_conversation_paired(
    before: Seq<QaChatMessage>,
    question: QaChatMessage,
    answer: QaChatMessage,
)
    requires
        paired(before),
        question.role@ == "user"@,
        answer.role@ == "assistant"@,
    ensures
        asked(before.push(question)),
        before.push(question).drop_last() == before,
        paired(before.push(question).push(answer)),
{
    assert(before.push(question).drop_last() == before);
    let after = before.push(question).push(answer);
    assert forall|i: int| 0 <= i < after.len() implies (#[trigger] after[i]).role@ == (if i % 2
        == 0 {
        "user"@
    } else {
        "assistant"@
    }) by {
        if i < before.len() {
            assert(after[i] == before[i]);
        }
    }
}

/// A question that ends quietly is idle again; the panel and the conversation stay.
pub proof fn a_quiet_end_keeps_the_conversation(state: QaSessionState)
    ensures
        quiet(state).phase == QaPhase::Idle,
        !quiet(state).cancelled,
        quiet(state).messages == state.messages,
        quiet(state).panel_visible == state.panel_visible,
{
}

/// A question that was cancelled while its answer was being made never gets that answer: the
/// turn ends quietly, and the stream of the answer is told to stop.
pub proof fn a_cancelled_question_is_not_answered(state: QaSessionState)
    requires
        state.phase == QaPhase::Processing,
    ensures
        after_cancel(state).phase == QaPhase::Processing,
        after_cancel(state).stream_cancelled,
        answer_decision(after_cancel(state), true) == QaAnswerDecision::GoQuiet,
{
}

/// A question begins in at most four steps, each of which either goes on or settles it.
pub proof fn a_beginning_is_always_settled(stage: QaBeginStage, succeeded: bool, cancelled: bool)
    requires
        stage != QaBeginStage::Done,
    ensures
        begin_steps_left(begin_after(stage, succeeded, cancelled).0) < begin_steps_left(stage),
        !succeeded ==> begin_after(stage, succeeded, cancelled).1 is Fail,
{
}

/// How many steps a beginning can still take.
pub open spec fn begin_steps_left(stage: QaBeginStage) -> nat {
    match stage {
        QaBeginStage::Credentials => 4,
        QaBeginStage::Microphone => 3,
        QaBeginStage::Recorder => 2,
        QaBeginStage::Recogniser => 1,
        QaBeginStage::Done => 0,
    }
}

/// Each failure of the beginning names the step that failed, and a step that succeeds leads to the
/// next one: credentials, microphone, recorder, recogniser.  Only a question that was cancelled
/// meanwhile is given up without a word, and only at the end.
pub proof fn a_beginning_names_what_failed(stage: QaBeginStage, cancelled: bool)
    requires
        stage != QaBeginStage::Done,
    ensures
        ({
            let fails = begin_after(stage, false, cancelled);
            let goes_on = begin_after(stage, true, cancelled);
            &&& fails.0 == QaBeginStage::Done
            &&& fails.1 == QaBeginAction::Fail(QaBeginFailure::CredentialsMissing) <==> stage
                == QaBeginStage::Credentials
            &&& fails.1 == QaBeginAction::Fail(QaBeginFailure::MicrophoneDenied) <==> stage
                == QaBeginStage::Microphone
            &&& fails.1 == QaBeginAction::Fail(QaBeginFailure::RecorderFailed) <==> stage
                == QaBeginStage::Recorder
            &&& fails.1 == QaBeginAction::Fail(QaBeginFailure::RecogniserFailed) <==> stage
                == QaBeginStage::Recogniser
            &&& !(goes_on.1 is Fail)
            &&& goes_on.1 == QaBeginAction::AbortQuietly <==> stage == QaBeginStage::Recogniser
                && cancelled
            &&& goes_on.1 == QaBeginAction::Attach <==> stage == QaBeginStage::Recogniser
                && !cancelled
        }),
{
}

/// A question whose four steps succeed is recorded, whatever happened before.
pub proof fn an_unhindered_question_is_recorded()
    ensures
        ({
            let microphone = begin_after(QaBeginStage::Credentials, true, false);
            let recorder = begin_after(microphone.0, true, false);
            let recogniser = begin_after(recorder.0, true, false);
            let attached = begin_after(recogniser.0, true, false);
            &&& microphone.1 == QaBeginAction::CheckMicrophone
            &&& recorder.1 == QaBeginAction::StartRecorder
            &&& recogniser.1 == QaBeginAction::OpenRecogniser
            &&& attached.1 == QaBeginAction::Attach
            &&& attached.0 == QaBeginStage::Done
        }),
{
}

/// A question that ended, quietly or with a failure, leaves room for another one, and keeps who was
/// asked, where the panel stands and what was said.  Only a quiet end forgets the selection.
pub proof fn an_ended_question_leaves_the_panel(state: QaSessionState)
    ensures
        failed(state).phase == QaPhase::Idle,
        !failed(state).cancelled,
        failed(state).selection == state.selection,
        quiet(state).selection is None,
        failed(state).messages == state.messages,
        failed(state).panel_visible == state.panel_visible,
        failed(state).pinned == state.pinned,
        quiet(state).pinned == state.pinned,
        failed(state).session_id == state.session_id,
        quiet(state).session_id == state.session_id,
        failed(state).front_app == state.front_app,
        quiet(state).front_app == state.front_app,
        failed(state).stream_cancelled == state.stream_cancelled,
        quiet(state).stream_cancelled == state.stream_cancelled,
{
}

/// A cancelled question is marked and its stream stops, whether it was recorded or answered; nothing
/// else of it is touched, and an idle panel has nothing to cancel.  Cancelling again changes nothing.
pub proof fn a_cancel_only_marks_the_question(state: QaSessionState)
    ensures
        state.phase == QaPhase::Idle ==> after_cancel(state) == state,
        state.phase != QaPhase::Idle ==> after_cancel(state).cancelled && after_cancel(
            state,
        ).stream_cancelled,
        after_cancel(state).phase == QaPhase::Processing <==> state.phase == QaPhase::Processing,
        after_cancel(state).phase != QaPhase::Recording,
        after_cancel(state).messages == state.messages,
        after_cancel(state).selection == state.selection,
        after_cancel(state).panel_visible == state.panel_visible,
        after_cancel(state).pinned == state.pinned,
        after_cancel(state).session_id == state.session_id,
        after_cancel(state).front_app == state.front_app,
        after_cancel(after_cancel(state)) == after_cancel(state),
{
}

/// An answer is shown exactly where there is one and nobody cancelled; a failure is shown even to
/// one who cancelled.
pub proof fn an_answer_is_shown_unless_cancelled(state: QaSessionState, answered: bool)
    ensures
        answer_decision(state, answered) == QaAnswerDecision::ShowAnswer <==> answered
            && !state.cancelled,
        answer_decision(state, answered) == QaAnswerDecision::ShowFailure <==> !answered,
        answer_decision(state, answered) == QaAnswerDecision::GoQuiet <==> answered
            && state.cancelled,
{
}

/// A question that failed or went quiet leaves nothing behind in the conversation: what is left
/// after its question is taken back is what was there before it was asked.
pub proof fn an_unanswered_question_leaves_no_trace(
    before: QaSessionState,
    transcript: Seq<char>,
    asked_state: QaSessionState,
)
    requires
        question_taken(before, transcript, asked_state),
    ensures
        without_last(asked_state.messages@) == before.messages@,
        without_last(Seq::<QaChatMessage>::empty()) == Seq::<QaChatMessage>::empty(),
{
}

/// The words of the question always reach the model at the end of the message, and the message ends
/// in nothing else.  The selection stands before them in the first turn alone; a later turn, an empty
/// selection or none leaves the question as it is.
pub proof fn the_question_reaches_the_model(
    first_turn: bool,
    selection: Option<String>,
    question: Seq<char>,
)
    ensures
        ({
            let content = question_text(first_turn, selection, question);
            let lead = content.len() - question.len();
            &&& lead >= 0
            &&& content.skip(lead) == question
            &&& !first_turn ==> content == question
            &&& selection is None ==> content == question
            &&& selection is Some && blank(selection->0@) ==> content == question
            &&& first_turn && selection is Some && !blank(selection->0@) ==> content.subrange(
                0,
                lead,
            ) == "# 选区原文\n"@ + trimmed(selection->0@) + "\n\n# 我的问题\n"@
        }),
{
    let content = question_text(first_turn, selection, question);
    let lead = content.len() - question.len();
    assert(content.skip(lead) == question);
    if first_turn && selection is Some && !blank(selection->0@) {
        assert(content.subrange(0, lead) == "# 选区原文\n"@ + trimmed(selection->0@)
            + "\n\n# 我的问题\n"@);
    }
}

/// A question that is taken is a message of the user that ends in its words, and nothing but the
/// conversation changes.
pub proof fn a_taken_question_is_the_users(
    before: QaSessionState,
    transcript: Seq<char>,
    after: QaSessionState,
)
    requires
        question_taken(before, transcript, after),
    ensures
        ({
            let content = after.messages@.last().content@;
            &&& after.messages@.last().role@ == "user"@
            &&& after.messages@.len() == before.messages@.len() + 1
            &&& content.len() >= trimmed(transcript).len()
            &&& content.skip(content.len() - trimmed(transcript).len()) == trimmed(transcript)
            &&& before.messages@.len() > 0 ==> content == trimmed(transcript)
            &&& after.phase == before.phase
            &&& after.session_id == before.session_id
            &&& after.selection == before.selection
            &&& after.cancelled == before.cancelled
        }),
{
    the_question_reaches_the_model(
        before.messages@.len() == 0,
        before.selection,
        trimmed(transcript),
    );
}

/// The Escape key goes to the questions exactly where the panel is open or one is running.
pub proof fn escape_goes_to_an_open_panel(state: QaSessionState)
    ensures
        state.panel_visible ==> takes_escape(state),
        state.phase == QaPhase::Recording ==> takes_escape(state),
        state.phase == QaPhase::Processing ==> takes_escape(state),
        takes_escape(state) && !state.panel_visible ==> state.phase != QaPhase::Idle,
{
}

/// Every failure tells the user the reason it was given, but for a time limit, which has none.
pub proof fn a_failure_tells_its_reason(
    turn: QaTurnFailure,
    begin: QaBeginFailure,
    detail: Seq<char>,
)
    ensures
        ({
            let told = turn.notice(detail);
            let told_at_start = begin.notice(detail);
            &&& turn != QaTurnFailure::RecognitionTimedOut ==> told.len() >= detail.len()
                && told.skip(told.len() - detail.len()) == detail
            &&& turn == QaTurnFailure::RecognitionTimedOut ==> told == "识别超时"@
            &&& told_at_start.len() >= detail.len()
            &&& told_at_start.skip(told_at_start.len() - detail.len()) == detail
            &&& begin == QaBeginFailure::MicrophoneDenied ==> told_at_start == detail
        }),
{
    let told = turn.notice(detail);
    let told_at_start = begin.notice(detail);
    if turn != QaTurnFailure::RecognitionTimedOut {
        assert(told.skip(told.len() - detail.len()) == detail);
    }
    assert(told_at_start.skip(told_at_start.len() - detail.len()) == detail);
}

} // verus!
