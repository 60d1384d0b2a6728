//! Outcomes of registrations and unregistrations.

use vstd::prelude::*;
use vstd::string::to_string_from_display_ensures;

verus! {

/// The outcome of a registration or an unregistration, with the identifier of
/// the hotkey and, on failure, the native error.
pub enum Response {
    OkRegister { id: u32 },
    ErrorRegister { id: u32, error: global_hotkey::Error },
    OkUnregister { id: u32 },
    ErrorUnregister { id: u32, error: global_hotkey::Error },
}

/// Whether an operation succeeded.
#[derive(Clone, Copy, Debug, PartialEq, Eq, Structural)]
pub enum ResponseCode {
    Success,
    Failure,
}

/// The outcome of an operation in plain values: its code, the hotkey's
/// identifier, and the error message on failure.
pub struct HotkReponse {
    pub code: ResponseCode,
    pub id: u32,
    pub error: Option<String>,
}

impl Response {
    /// The identifier of the hotkey that the operation concerned.
    pub open spec fn hotkey_id(self) -> u32 {
        match self {
            Response::OkRegister { id } => id,
            Response::ErrorRegister { id, .. } => id,
            Response::OkUnregister { id } => id,
            Response::ErrorUnregister { id, .. } => id,
        }
    }

    /// Whether the operation succeeded.
    pub open spec fn succeeded(self) -> bool {
        self is OkRegister || self is OkUnregister
    }

    /// Whether the operation was a registration.
    pub open spec fn is_registration(self) -> bool {
        self is OkRegister || self is ErrorRegister
    }

    /// The outcome of registering the hotkey `id`, given what the native call
    /// returned.
    pub fn registered(id: u32, result: Result<(), global_hotkey::Error>) -> (r: Response)
        ensures
            r.hotkey_id() == id,
            r.is_registration(),
            r.succeeded() <==> result is Ok,
            result is Ok ==> r == (Response::OkRegister { id }),
            result matches Err(e) ==> r == (Response::ErrorRegister { id, error: e }),
    {
        match result {
            Ok(()) => Response::OkRegister { id },
            Err(error) => Response::ErrorRegister { id, error },
        }
    }

    /// The outcome of unregistering the hotkey `id`, given what the native call
    /// returned.
    pub fn unregistered(id: u32, result: Result<(), global_hotkey::Error>) -> (r: Response)
        ensures
            r.hotkey_id() == id,
            !r.is_registration(),
            r.succeeded() <==> result is Ok,
            result is Ok ==> r == (Response::OkUnregister { id }),
            result matches Err(e) ==> r == (Response::ErrorUnregister { id, error: e }),
    {
        match result {
            Ok(()) => Response::OkUnregister { id },
            Err(error) => Response::ErrorUnregister { id, error },
        }
    }

    /// The outcome in plain values; the error message is the native error's
    /// text.
    pub fn to_napi(&self) -> (r: HotkReponse)
        ensures
            r.id == self.hotkey_id(),
            r.code == (if self.succeeded() { ResponseCode::Success } else { ResponseCode::Failure }),
            r.error is Some <==> !self.succeeded(),
            match *self {
                Response::ErrorRegister { error, .. } => r.error matches Some(s)
                    && to_string_from_display_ensures::<global_hotkey::Error>(&error, s),
                Response::ErrorUnregister { error, .. } => r.error matches Some(s)
                    && to_string_from_display_ensures::<global_hotkey::Error>(&error, s),
                _ => r.error is None,
            },
    {
        match self {
            Response::OkRegister { id } => HotkReponse { code: ResponseCode::Success, id: *id, error: None },
            Response::ErrorRegister { id, error } => HotkReponse {
                code: ResponseCode::Failure,
                id: *id,
                error: Some(error.to_string()),
            },
            Response::OkUnregister { id } => HotkReponse {
                code: ResponseCode::Success,
                id: *id,
                error: None,
            },
            Response::ErrorUnregister { id, error } => HotkReponse {
                code: ResponseCode::Failure,
                id: *id,
                error: Some(error.to_string()),
            },
        }
    }
}

impl HotkReponse {
    /// Whether the response reports success.
    pub fn is_ok(&self) -> (r: bool)
        ensures
            r <==> self.code == ResponseCode::Success,
    {
        match self.code {
            ResponseCode::Success => true,
            ResponseCode::Failure => false,
        }
    }
}

} // verus!
