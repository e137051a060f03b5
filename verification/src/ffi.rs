//! The host plugin boundary, as plain data: the process kinds and
//! argument kinds the host's registration table speaks of, with their
//! wire codes, and the table of entry points the plugin registers in a
//! renderer process. The raw C entry points themselves live in the
//! surrounding program.

use vstd::prelude::*;

verus! {

/// Which host process loaded the plugin.
#[derive(PartialEq, Eq, Structural, Clone, Copy, Debug)]
pub enum NCMProcessType {
    Undetected,
    Main,
    Renderer,
    GpuProcess,
    Utility,
}

impl NCMProcessType {
    /// The wire code the host hands over for this process kind.
    pub open spec fn spec_code(self) -> int {
        match self {
            NCMProcessType::Undetected => 0x0,
            NCMProcessType::Main => 0x1,
            NCMProcessType::Renderer => 0x10,
            NCMProcessType::GpuProcess => 0x100,
            NCMProcessType::Utility => 0x1000,
        }
    }

    pub fn code(self) -> (r: i32)
        ensures
            r as int == self.spec_code(),
    {
        match self {
            NCMProcessType::Undetected => 0x0,
            NCMProcessType::Main => 0x1,
            NCMProcessType::Renderer => 0x10,
            NCMProcessType::GpuProcess => 0x100,
            NCMProcessType::Utility => 0x1000,
        }
    }

    /// The process kind for a wire code; unknown codes map to none.
    pub fn from_code(code: i32) -> (r: Option<NCMProcessType>)
        ensures
            match r {
                Some(t) => t.spec_code() == code as int,
                None => code != 0x0 && code != 0x1 && code != 0x10 && code != 0x100 && code
                    != 0x1000,
            },
    {
        if code == 0x0 {
            Some(NCMProcessType::Undetected)
        } else if code == 0x1 {
            Some(NCMProcessType::Main)
        } else if code == 0x10 {
            Some(NCMProcessType::Renderer)
        } else if code == 0x100 {
            Some(NCMProcessType::GpuProcess)
        } else if code == 0x1000 {
            Some(NCMProcessType::Utility)
        } else {
            None
        }
    }

    /// The plugin registers its entry points only in a renderer process.
    pub fn registers_api(self) -> (r: bool)
        ensures
            r == (self is Renderer),
    {
        match self {
            NCMProcessType::Renderer => true,
            _ => false,
        }
    }
}

/// The argument kinds the host's registration table understands, in wire
/// order.
#[derive(PartialEq, Eq, Structural, Clone, Copy, Debug)]
pub enum NativeAPIType {
    Int,
    Boolean,
    Double,
    Text,
    V8Value,
}

impl NativeAPIType {
    /// The wire code for this argument kind: its position in the host's
    /// declaration order.
    pub open spec fn spec_code(self) -> int {
        match self {
            NativeAPIType::Int => 0,
            NativeAPIType::Boolean => 1,
            NativeAPIType::Double => 2,
            NativeAPIType::Text => 3,
            NativeAPIType::V8Value => 4,
        }
    }

    pub fn code(self) -> (r: i32)
        ensures
            r as int == self.spec_code(),
    {
        match self {
            NativeAPIType::Int => 0,
            NativeAPIType::Boolean => 1,
            NativeAPIType::Double => 2,
            NativeAPIType::Text => 3,
            NativeAPIType::V8Value => 4,
        }
    }
}

/// One entry point the plugin offers: its identifier and the kind of its
/// single argument, if it takes one.
pub struct ApiRegistration {
    pub identifier: &'static str,
    pub arg: Option<NativeAPIType>,
}

/// The entry points registered in a renderer process, in registration
/// order: lifecycle first, then the two callback hooks, then dispatch.
pub fn plugin_api_table() -> (r: Vec<ApiRegistration>)
    ensures
        r@.len() == 6,
        r@[0].identifier@ == "inflink.initialize"@ && r@[0].arg is None,
        r@[1].identifier@ == "inflink.register_logger"@ && r@[1].arg == Some(
            NativeAPIType::V8Value,
        ),
        r@[2].identifier@ == "inflink.set_log_level"@ && r@[2].arg == Some(NativeAPIType::Text),
        r@[3].identifier@ == "inflink.shutdown"@ && r@[3].arg is None,
        r@[4].identifier@ == "inflink.register_event_callback"@ && r@[4].arg == Some(
            NativeAPIType::V8Value,
        ),
        r@[5].identifier@ == "inflink.dispatch"@ && r@[5].arg == Some(NativeAPIType::Text),
{
    let mut r: Vec<ApiRegistration> = Vec::new();
    r.push(ApiRegistration { identifier: "inflink.initialize", arg: None });
    r.push(
        ApiRegistration {
            identifier: "inflink.register_logger",
            arg: Some(NativeAPIType::V8Value),
        },
    );
    r.push(
        ApiRegistration { identifier: "inflink.set_log_level", arg: Some(NativeAPIType::Text) },
    );
    r.push(ApiRegistration { identifier: "inflink.shutdown", arg: None });
    r.push(
        ApiRegistration {
            identifier: "inflink.register_event_callback",
            arg: Some(NativeAPIType::V8Value),
        },
    );
    r.push(ApiRegistration { identifier: "inflink.dispatch", arg: Some(NativeAPIType::Text) });
    r
}

} // verus!
