use santool::config::ToolConfig;
use santool::error::{Invalid, Missing, ToolError};
use santool::fetch::{judge, seed_config, steps};
use santool::flash::{plan_flash, relay, FlashRequest, RelayAction, StreamEvent};
use santool::plan::{prepend_steps, Next, Plan, Relay, Step};
use santool::runner::{run, Command, Surroundings};

fn s(text: &str) -> String {
    text.to_string()
}

fn tools(compiler: Option<&str>, sanusb: Option<&str>) -> ToolConfig {
    ToolConfig {
        compiler_path: compiler.map(s),
        vm_path: None,
        sanusb_path: sanusb.map(s),
        infra_path: None,
    }
}

fn request(source: Option<&str>, bytecode: Option<&str>) -> FlashRequest {
    FlashRequest { source_path: source.map(s), bytecode_path: bytecode.map(s), config_path: s("dev.cfg") }
}

fn call(program: &str, first: &str, second: &str, relay: Relay) -> Step {
    Step::Execute { program: s(program), args: vec![s(first), s(second)], dir: None, relay }
}

fn runner(dir: &str) -> Step {
    Step::Execute {
        program: s("sh"),
        args: vec![s("-c"), s("cargo run")],
        dir: Some(s(dir)),
        relay: Relay::Lines,
    }
}

#[test]
fn flash_copies_bytecode_then_runs() {
    let plan = plan_flash(&request(None, Some("payload.sanb")), &tools(None, Some("/usb")));
    assert_eq!(plan.failure, None);
    assert_eq!(
        plan.steps,
        vec![
            call("cp", "dev.cfg", "/usb", Relay::Discard),
            call("cp", "payload.sanb", "/usb/payload.sanb", Relay::Discard),
            runner("/usb"),
        ]
    );
}

#[test]
fn flash_prefers_bytecode_over_source() {
    let both = plan_flash(&request(Some("prog.san"), Some("payload.sanb")), &tools(Some("/sanc"), Some("/usb")));
    let only = plan_flash(&request(None, Some("payload.sanb")), &tools(Some("/sanc"), Some("/usb")));
    assert_eq!(both, only);
    let no_compiler = plan_flash(&request(Some("prog.san"), Some("payload.sanb")), &tools(None, Some("/usb")));
    assert_eq!(no_compiler, only);
    assert_eq!(both.steps[1], call("cp", "payload.sanb", "/usb/payload.sanb", Relay::Discard));
}

#[test]
fn flash_compiles_source_into_place() {
    let plan = plan_flash(&request(Some("prog.san"), None), &tools(Some("/sanc"), Some("/usb")));
    assert_eq!(plan.failure, None);
    assert_eq!(
        plan.steps,
        vec![
            call("cp", "dev.cfg", "/usb", Relay::Discard),
            call("/sanc", "prog.san", "/usb/payload.sanb", Relay::Whole),
            runner("/usb"),
        ]
    );
}

#[test]
fn flash_without_payload_is_invalid() {
    let plan = plan_flash(&request(None, None), &tools(Some("/sanc"), Some("/usb")));
    assert_eq!(plan.failure, Some(ToolError::Validation(Invalid::NoPayload)));
    assert_eq!(plan.steps, vec![call("cp", "dev.cfg", "/usb", Relay::Discard)]);
}

#[test]
fn flash_without_sanusb_is_a_config_error() {
    for req in [request(None, None), request(Some("a.san"), None), request(None, Some("p.sanb"))] {
        let plan = plan_flash(&req, &tools(Some("/sanc"), None));
        assert!(plan.steps.is_empty());
        assert_eq!(plan.failure, Some(ToolError::Config(Missing::Sanusb)));
    }
}

#[test]
fn flash_from_source_without_compiler_is_a_config_error() {
    let plan = plan_flash(&request(Some("prog.san"), None), &tools(None, Some("/usb")));
    assert_eq!(plan.failure, Some(ToolError::Config(Missing::Compiler)));
    assert_eq!(plan.steps, vec![call("cp", "dev.cfg", "/usb", Relay::Discard)]);
}

#[test]
fn flash_command_with_bytecode() {
    let around = Surroundings {
        base_dir: s("/opt/santool"),
        config_text: Some(s("sanusb_path = \"/work/san-usb\"\n")),
        source_exists: false,
    };
    let plan = run(&Command::Flash(request(None, Some("payload.sanb"))), &around);
    assert_eq!(plan.failure, None);
    assert_eq!(
        plan.steps,
        vec![
            call("cp", "dev.cfg", "/work/san-usb", Relay::Discard),
            call("cp", "payload.sanb", "/work/san-usb/payload.sanb", Relay::Discard),
            runner("/work/san-usb"),
        ]
    );
    let lines = ["  Compiling san-usb", "", "\tFinished ", "done"];
    let mut echoed = Vec::new();
    for line in lines {
        match relay(StreamEvent::Line(s(line))) {
            RelayAction::Echo(text) => echoed.push(text),
            other => panic!("unexpected action {:?}", other),
        }
    }
    assert_eq!(echoed, lines);
    assert_eq!(relay(StreamEvent::Closed), RelayAction::Finish);
}

#[test]
fn flash_command_on_malformed_config_is_a_parse_error() {
    let around = Surroundings { base_dir: s("/x"), config_text: Some(s("= 3")), source_exists: false };
    let plan = run(&Command::Flash(request(None, Some("payload.sanb"))), &around);
    assert!(plan.steps.is_empty());
    assert_eq!(plan.failure, Some(ToolError::Parse));
}

#[test]
fn an_unreadable_line_aborts_the_relay() {
    assert_eq!(relay(StreamEvent::Unreadable), RelayAction::Abort(ToolError::Io));
}

#[test]
fn seeded_paths_lie_below_the_base() {
    assert_eq!(
        seed_config("/opt/santool"),
        ToolConfig {
            compiler_path: Some(s("/opt/santool/san_compiler")),
            vm_path: Some(s("/opt/santool/san_vm")),
            sanusb_path: Some(s("/opt/santool/SanScript/san-usb")),
            infra_path: None,
        }
    );
}

fn fetching() -> Vec<Step> {
    vec![
        Step::Fetch {
            label: s("SanCompiler"),
            url: s("https://github.com/StefanJo3107/SanScript/releases/download/v1.0.0/san_compiler"),
            file: s("san_compiler"),
        },
        Step::Fetch {
            label: s("SanVM"),
            url: s("https://github.com/StefanJo3107/SanVM/releases/download/v1.0.0/san_vm"),
            file: s("san_vm"),
        },
        Step::Execute {
            program: s("git"),
            args: vec![s("clone"), s("--recurse-submodules"), s("https://github.com/StefanJo3107/SanScript.git")],
            dir: None,
            relay: Relay::Discard,
        },
    ]
}

#[test]
fn fetch_steps_are_the_two_downloads_and_the_clone() {
    assert_eq!(steps(), fetching());
}

#[test]
fn download_fetches_then_seeds_the_config() {
    let around = Surroundings {
        base_dir: s("/opt/santool"),
        config_text: Some(s("infra_path = \"/infra\"\ncompiler_path = \"/old\"\n")),
        source_exists: false,
    };
    let plan = run(&Command::Download, &around);
    assert_eq!(plan.failure, None);
    let mut expected = fetching();
    expected.push(Step::Write {
        path: s("/opt/santool/config.toml"),
        text: s("compiler_path = \"/opt/santool/san_compiler\"\nvm_path = \"/opt/santool/san_vm\"\nsanusb_path = \"/opt/santool/SanScript/san-usb\"\ninfra_path = \"/infra\"\n"),
    });
    assert_eq!(plan.steps, expected);
}

#[test]
fn download_on_malformed_config_fails_after_fetching() {
    let around = Surroundings { base_dir: s("/opt/santool"), config_text: Some(s("[[")), source_exists: false };
    let plan = run(&Command::Download, &around);
    assert_eq!(plan.failure, Some(ToolError::Parse));
    assert_eq!(plan.steps, fetching());
}

#[test]
fn prepend_puts_steps_in_front() {
    let rest = Plan { steps: vec![runner("/usb")], failure: Some(ToolError::Exec) };
    let plan = prepend_steps(fetching(), rest);
    let mut expected = fetching();
    expected.push(runner("/usb"));
    assert_eq!(plan.steps, expected);
    assert_eq!(plan.failure, Some(ToolError::Exec));
}

#[test]
fn a_response_is_stored_only_on_success() {
    let good = judge("SanCompiler", true, "200 OK");
    assert!(good.store);
    assert_eq!(good.notice, "SanCompiler downloaded successfully!");
    let bad = judge("SanVM", false, "404 Not Found");
    assert!(!bad.store);
    assert_eq!(bad.notice, "Failed to download file. Status: 404 Not Found");
}

#[test]
fn a_plan_is_walked_in_order_and_fails_last() {
    let plan = plan_flash(&request(None, None), &tools(None, Some("/usb")));
    assert_eq!(plan.next(0), Next::Perform(0));
    assert_eq!(plan.next(1), Next::Fail(ToolError::Validation(Invalid::NoPayload)));
    assert_eq!(plan.next(7), Next::Fail(ToolError::Validation(Invalid::NoPayload)));
    let plan = plan_flash(&request(None, Some("p.sanb")), &tools(None, Some("/usb")));
    assert_eq!(plan.next(0), Next::Perform(0));
    assert_eq!(plan.next(2), Next::Perform(2));
    assert_eq!(plan.next(3), Next::Finish);
    let empty = Plan { steps: Vec::new(), failure: None };
    assert_eq!(empty.next(0), Next::Finish);
}
