//! Errors as the user interface shows them: a kind, a user-facing message, an optional
//! technical detail, and whether the user can carry on.

use vstd::prelude::*;

use crate::text::{copy_opt_string, owned, text_eq};
use crate::timer_engine::TimerError;

verus! {

#[derive(Debug, Clone, Copy, PartialEq, Eq, Structural)]
pub enum AppErrorKind {
    System,
    Data,
    Timer,
    Audio,
}

/// The form of an error that is handed to the user interface.
#[derive(Debug, Clone)]
pub struct AppErrorPayload {
    pub kind: AppErrorKind,
    pub message: String,
    pub detail: Option<String>,
    pub recoverable: bool,
}

#[derive(Debug, Clone)]
pub struct AppError {
    kind: AppErrorKind,
    message: String,
    detail: Option<String>,
    recoverable: bool,
}

/// An application error as a mathematical value.
pub struct AppErrorView {
    pub kind: AppErrorKind,
    pub message: Seq<char>,
    pub detail: Option<Seq<char>>,
    pub recoverable: bool,
}

impl View for AppError {
    type V = AppErrorView;

    closed spec fn view(&self) -> AppErrorView {
        AppErrorView {
            kind: self.kind,
            message: self.message@,
            detail: match self.detail {
                Some(d) => Some(d@),
                None => None,
            },
            recoverable: self.recoverable,
        }
    }
}

/// The user-facing text for a reason the engine gives for refusing a routine.
pub open spec fn invalid_routine_text(reason: Seq<char>) -> Seq<char> {
    if reason == "routine must have at least one step"@ {
        "ステップを1つ以上追加してください"@
    } else if reason == "step duration must be at least 1 second"@ {
        "ステップ時間は1秒以上にしてください"@
    } else if reason == "repeat count must be at least 1"@ {
        "繰り返し回数は1以上にしてください"@
    } else if reason == "repeat duration must be at least 1 second"@ {
        "繰り返し時間は1秒以上にしてください"@
    } else if reason == "step index out of bounds"@ {
        "ステップの参照に失敗しました"@
    } else if reason == "no check-in awaiting response"@ {
        "確認待ちのチェックインがありません"@
    } else {
        "ルーチンが無効です: "@ + reason
    }
}

/// The user-facing text for an engine error.
pub open spec fn timer_error_text(e: TimerError) -> Seq<char> {
    match e {
        TimerError::AlreadyRunning => "タイマーはすでに実行中です"@,
        TimerError::NotRunning => "タイマーが実行されていません"@,
        TimerError::AlreadyPaused => "タイマーはすでに一時停止中です"@,
        TimerError::NotPaused => "タイマーは一時停止されていません"@,
        TimerError::InvalidRoutine(reason) => invalid_routine_text(reason@),
    }
}

/// The user-facing text for a reason the engine gives for refusing a routine.
pub fn translate_invalid_routine(reason: &str) -> (r: String)
    ensures
        r@ == invalid_routine_text(reason@),
{
    if text_eq(reason, "routine must have at least one step") {
        owned("ステップを1つ以上追加してください")
    } else if text_eq(reason, "step duration must be at least 1 second") {
        owned("ステップ時間は1秒以上にしてください")
    } else if text_eq(reason, "repeat count must be at least 1") {
        owned("繰り返し回数は1以上にしてください")
    } else if text_eq(reason, "repeat duration must be at least 1 second") {
        owned("繰り返し時間は1秒以上にしてください")
    } else if text_eq(reason, "step index out of bounds") {
        owned("ステップの参照に失敗しました")
    } else if text_eq(reason, "no check-in awaiting response") {
        owned("確認待ちのチェックインがありません")
    } else {
        owned("ルーチンが無効です: ").concat(reason)
    }
}

impl AppError {
    pub fn new(kind: AppErrorKind, message: String, recoverable: bool) -> (r: Self)
        ensures
            r@ == (AppErrorView { kind, message: message@, detail: None, recoverable }),
    {
        AppError { kind, message, detail: None, recoverable }
    }

    pub fn with_detail(kind: AppErrorKind, message: String, detail: String, recoverable: bool) -> (r:
        Self)
        ensures
            r@ == (AppErrorView { kind, message: message@, detail: Some(detail@), recoverable }),
    {
        AppError { kind, message, detail: Some(detail), recoverable }
    }

    /// A recoverable system error.
    pub fn system(message: String) -> (r: Self)
        ensures
            r@ == (AppErrorView {
                kind: AppErrorKind::System,
                message: message@,
                detail: None,
                recoverable: true,
            }),
    {
        Self::new(AppErrorKind::System, message, true)
    }

    /// An audio error; the user carries on without sound.
    pub fn audio(message: String) -> (r: Self)
        ensures
            r@ == (AppErrorView {
                kind: AppErrorKind::Audio,
                message: message@,
                detail: None,
                recoverable: false,
            }),
    {
        Self::new(AppErrorKind::Audio, message, false)
    }

    /// A recoverable timer error: the user-facing text, with the engine's own description
    /// as detail.
    pub fn from_timer_error(error: TimerError) -> (r: Self)
        ensures
            r@.kind == AppErrorKind::Timer,
            r@.message == timer_error_text(error),
            r@.detail is Some,
            r@.recoverable,
    {
        let detail = error.message();
        let message = match &error {
            TimerError::AlreadyRunning => owned("タイマーはすでに実行中です"),
            TimerError::NotRunning => owned("タイマーが実行されていません"),
            TimerError::AlreadyPaused => owned("タイマーはすでに一時停止中です"),
            TimerError::NotPaused => owned("タイマーは一時停止されていません"),
            TimerError::InvalidRoutine(reason) => translate_invalid_routine(reason.as_str()),
        };
        Self::with_detail(AppErrorKind::Timer, message, detail, true)
    }

    pub fn kind(&self) -> (r: AppErrorKind)
        ensures
            r == self@.kind,
    {
        self.kind
    }

    pub fn message(&self) -> (r: &str)
        ensures
            r@ == self@.message,
    {
        self.message.as_str()
    }

    pub fn detail(&self) -> (r: Option<&str>)
        ensures
            r is Some <==> self@.detail is Some,
            r matches Some(d) ==> d@ == self@.detail->0,
    {
        match &self.detail {
            Some(d) => Some(d.as_str()),
            None => None,
        }
    }

    pub fn payload(&self) -> (r: AppErrorPayload)
        ensures
            r.kind == self@.kind,
            r.message@ == self@.message,
            r.detail is Some <==> self@.detail is Some,
            r.detail matches Some(d) ==> d@ == self@.detail->0,
            r.recoverable == self@.recoverable,
    {
        AppErrorPayload {
            kind: self.kind,
            message: self.message.clone(),
            detail: copy_opt_string(&self.detail),
            recoverable: self.recoverable,
        }
    }
}

} // verus!
