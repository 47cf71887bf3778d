//! Fetching the toolchain: two release binaries and the repository that
//! holds the flashing project.

use vstd::prelude::*;
use crate::config::{ToolConfig, ToolConfigView};
use crate::plan::{Relay, Step, StepView};

verus! {

/// The three fetching steps, in order: the compiler binary, the VM binary,
/// and the clone of the repository with its submodules.
pub open spec fn fetch_steps() -> Seq<StepView> {
    seq![
        StepView::Fetch {
            label: "SanCompiler"@,
            url: "https://github.com/StefanJo3107/SanScript/releases/download/v1.0.0/san_compiler"@,
            file: "san_compiler"@,
        },
        StepView::Fetch {
            label: "SanVM"@,
            url: "https://github.com/StefanJo3107/SanVM/releases/download/v1.0.0/san_vm"@,
            file: "san_vm"@,
        },
        StepView::Execute {
            program: "git"@,
            args: seq![
                "clone"@,
                "--recurse-submodules"@,
                "https://github.com/StefanJo3107/SanScript.git"@,
            ],
            dir: None,
            relay: Relay::Discard,
        },
    ]
}

/// The configuration that a fetch seeds, for the directory `base` of the
/// executable: the two binaries and the flashing project below `base`, and
/// no infra path.
pub open spec fn seeded(base: Seq<char>) -> ToolConfigView {
    ToolConfigView {
        compiler_path: Some(base + "/san_compiler"@),
        vm_path: Some(base + "/san_vm"@),
        sanusb_path: Some(base + "/SanScript/san-usb"@),
        infra_path: None,
    }
}

/// Builds the three fetching steps.
pub fn steps() -> (list: Vec<Step>)
    ensures
        crate::plan::step_views(list@) == fetch_steps(),
{
    let mut clone_args: Vec<String> = Vec::new();
    clone_args.push(String::from_str("clone"));
    clone_args.push(String::from_str("--recurse-submodules"));
    clone_args.push(String::from_str("https://github.com/StefanJo3107/SanScript.git"));
    assert(crate::plan::texts(clone_args@) =~= seq![
        "clone"@,
        "--recurse-submodules"@,
        "https://github.com/StefanJo3107/SanScript.git"@,
    ]);
    let mut list: Vec<Step> = Vec::new();
    list.push(
        Step::Fetch {
            label: String::from_str("SanCompiler"),
            url: String::from_str(
                "https://github.com/StefanJo3107/SanScript/releases/download/v1.0.0/san_compiler",
            ),
            file: String::from_str("san_compiler"),
        },
    );
    list.push(
        Step::Fetch {
            label: String::from_str("SanVM"),
            url: String::from_str(
                "https://github.com/StefanJo3107/SanVM/releases/download/v1.0.0/san_vm",
            ),
            file: String::from_str("san_vm"),
        },
    );
    list.push(
        Step::Execute {
            program: String::from_str("git"),
            args: clone_args,
            dir: None,
            relay: Relay::Discard,
        },
    );
    assert(crate::plan::step_views(list@) =~= fetch_steps());
    list
}

/// Builds the configuration that a fetch seeds.
pub fn seed_config(base: &str) -> (config: ToolConfig)
    ensures
        config@ == seeded(base@),
{
    ToolConfig {
        compiler_path: Some(String::from_str(base).concat("/san_compiler")),
        vm_path: Some(String::from_str(base).concat("/san_vm")),
        sanusb_path: Some(String::from_str(base).concat("/SanScript/san-usb")),
        infra_path: None,
    }
}

/// What to do with a response: whether its body is stored, and what the user
/// is told.
#[derive(Clone, Debug, PartialEq, Eq)]
pub struct Verdict {
    pub store: bool,
    pub notice: String,
}

/// The notice for a response: success names what was downloaded, anything
/// else shows the status.
pub open spec fn notice_text(label: Seq<char>, success: bool, status: Seq<char>) -> Seq<char> {
    if success {
        label + " downloaded successfully!"@
    } else {
        "Failed to download file. Status: "@ + status
    }
}

/// Judges the response to a download. The body is stored exactly when the
/// status is a success; a non-success status is reported and does not stop
/// the plan.
pub fn judge(label: &str, success: bool, status: &str) -> (verdict: Verdict)
    ensures
        verdict.store == success,
        verdict.notice@ == notice_text(label@, success, status@),
{
    if success {
        Verdict {
            store: true,
            notice: String::from_str(label).concat(" downloaded successfully!"),
        }
    } else {
        Verdict {
            store: false,
            notice: String::from_str("Failed to download file. Status: ").concat(status),
        }
    }
}

} // verus!
