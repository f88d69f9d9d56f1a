//! The event dispatcher: one filesystem change event in, one console notice
//! out, and for writes and creations a compile request for the path.
use vstd::prelude::*;

verus! {

/// One filesystem change, as the watch source reports it after debouncing.
/// Paths are plain strings; the watcher hands them in converted.
pub enum ChangeEvent {
    /// A file's contents were written.
    Written(String),
    /// A file or directory was created.
    Created(String),
    /// A file or directory was removed.
    Removed(String),
    /// A file or directory was renamed from the first path to the second.
    Renamed(String, String),
    /// A file's permissions changed.
    PermissionsChanged(String),
    /// The watch source detected an inconsistency and rescanned on its own.
    RescanRequested,
    /// An error the watch source reports, with the path it concerns if known.
    Error(String, Option<String>),
    /// Anything else the watch source emits; ignored without a notice.
    Other,
}

/// What the dispatcher decides for one event: the notice to print, if any,
/// and the path to hand to the compile invoker, if the event calls for one.
pub struct Dispatch {
    pub notice: Option<String>,
    pub compile: Option<String>,
}

/// The notice printed for an event. Only an unrecognized event passes in
/// silence.
pub open spec fn spec_notice(e: ChangeEvent) -> Option<Seq<char>> {
    match e {
        ChangeEvent::Written(p) => Some("WRITE: "@ + p@ + " is written"@),
        ChangeEvent::Created(p) => Some("CREATE: "@ + p@ + " is created"@),
        ChangeEvent::Removed(p) => Some("REMOVE: "@ + p@ + " was removed"@),
        ChangeEvent::Renamed(o, n) => Some("RENAME "@ + o@ + " was renamed to "@ + n@),
        ChangeEvent::PermissionsChanged(p) => Some(
            "CHMOD: file permissions of "@ + p@ + " has been changed"@,
        ),
        ChangeEvent::RescanRequested => Some("RESCAN: problem detected\nrescanned file/directory."@),
        ChangeEvent::Error(c, Some(p)) => Some("ERROR: error "@ + c@ + " at "@ + p@),
        ChangeEvent::Error(c, None) => Some("ERROR: error "@ + c@),
        ChangeEvent::Other => None,
    }
}

/// The path an event asks to compile: writes and creations ask, nothing else
/// does.
pub open spec fn spec_compile_request(e: ChangeEvent) -> Option<Seq<char>> {
    match e {
        ChangeEvent::Written(p) => Some(p@),
        ChangeEvent::Created(p) => Some(p@),
        _ => None,
    }
}

/// Classify one event: build its notice and say whether a compile follows.
/// Every branch only reports; no event is an error for the dispatcher.
pub fn handle(event: &ChangeEvent) -> (r: Dispatch)
    ensures
        r.notice.deep_view() == spec_notice(*event),
        r.compile.deep_view() == spec_compile_request(*event),
{
    match event {
        ChangeEvent::Written(p) => Dispatch {
            notice: Some("WRITE: ".to_owned().concat(p.as_str()).concat(" is written")),
            compile: Some(p.clone()),
        },
        ChangeEvent::Created(p) => Dispatch {
            notice: Some("CREATE: ".to_owned().concat(p.as_str()).concat(" is created")),
            compile: Some(p.clone()),
        },
        ChangeEvent::Removed(p) => Dispatch {
            notice: Some("REMOVE: ".to_owned().concat(p.as_str()).concat(" was removed")),
            compile: None,
        },
        ChangeEvent::Renamed(o, n) => Dispatch {
            notice: Some(
                "RENAME ".to_owned().concat(o.as_str()).concat(" was renamed to ").concat(
                    n.as_str(),
                ),
            ),
            compile: None,
        },
        ChangeEvent::PermissionsChanged(p) => Dispatch {
            notice: Some(
                "CHMOD: file permissions of ".to_owned().concat(p.as_str()).concat(
                    " has been changed",
                ),
            ),
            compile: None,
        },
        ChangeEvent::RescanRequested => Dispatch {
            notice: Some("RESCAN: problem detected\nrescanned file/directory.".to_owned()),
            compile: None,
        },
        ChangeEvent::Error(c, Some(p)) => Dispatch {
            notice: Some(
                "ERROR: error ".to_owned().concat(c.as_str()).concat(" at ").concat(p.as_str()),
            ),
            compile: None,
        },
        ChangeEvent::Error(c, None) => Dispatch {
            notice: Some("ERROR: error ".to_owned().concat(c.as_str())),
            compile: None,
        },
        ChangeEvent::Other => Dispatch { notice: None, compile: None },
    }
}

} // verus!
