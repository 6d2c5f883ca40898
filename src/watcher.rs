//! Reload decisions on file-system notifications: only a completed write of
//! the module file asks for a reload.
use vstd::prelude::*;
use vstd::string::StringSliceAdditionalSpecFns;
use crate::scheduler::RunnerCommand;
use crate::wasm::name_is;

verus! {

/// A file-system notification from the watched directory.
pub enum FsEvent {
    /// A write to the file of this name completed.
    NoticeWrite(String),
    /// Any other notification.
    Other,
}

/// The bytes of the module file's name, `indicator.wasm`.
pub open spec fn module_file_name() -> Seq<u8> {
    seq![105u8, 110u8, 100u8, 105u8, 99u8, 97u8, 116u8, 111u8, 114u8, 46u8, 119u8, 97u8, 115u8, 109u8]
}

/// Whether `e` asks for a reload.
pub open spec fn requests_reload(e: FsEvent) -> bool {
    match e {
        FsEvent::NoticeWrite(name) => vstd::utf8::encode_utf8(name@) == module_file_name(),
        FsEvent::Other => false,
    }
}

/// The command a notification leads to: a reload for a completed write of
/// the module file, and none for anything else.
pub fn handle_event(event: &FsEvent) -> (r: Option<RunnerCommand>)
    ensures
        requests_reload(*event) ==> r == Some(RunnerCommand::Reload),
        !requests_reload(*event) ==> r.is_none(),
{
    match event {
        FsEvent::NoticeWrite(name) => {
            let expected: [u8; 14] = [105u8, 110u8, 100u8, 105u8, 99u8, 97u8, 116u8, 111u8, 114u8, 46u8, 119u8, 97u8, 115u8, 109u8];
            assert(expected@ =~= module_file_name());
            if name_is(name.as_str(), &expected) {
                Some(RunnerCommand::Reload)
            } else {
                None
            }
        },
        FsEvent::Other => None,
    }
}

} // verus!
