use icon_maker::cli::{GenerateArgs, IconStyle};
use icon_maker::config::AppConfig;
use icon_maker::error::IconMakerError;
use icon_maker::generate::{
    OutputDirAction, RunStep, completion_report, dry_run_report, first_non_empty, master_request,
    next_step, plan_generation, prepare_output_dir, resolve_api_key, resolve_model, seed_text,
    verbose_notice,
};

#[test]
fn prepare_output_dir_fails_without_force() {
    let dir = "/tmp/icon_maker_test_prepare/AppIcon.appiconset";
    let err = prepare_output_dir(dir, true, false).expect_err("expected error");
    assert!(err.message().contains("already exists"));
}

#[test]
fn prepare_output_dir_replaces_only_with_force() {
    let dir = "/tmp/out/AppIcon.appiconset";
    assert_eq!(prepare_output_dir(dir, true, true).unwrap(), OutputDirAction::ReplaceExisting);
    assert_eq!(prepare_output_dir(dir, false, true).unwrap(), OutputDirAction::Create);
    assert_eq!(prepare_output_dir(dir, false, false).unwrap(), OutputDirAction::Create);
    match prepare_output_dir(dir, true, false) {
        Err(IconMakerError::OutputExists(p)) => assert_eq!(p, dir),
        other => panic!("unexpected: {other:?}"),
    }
    assert_eq!(
        prepare_output_dir(dir, true, false).unwrap_err().message(),
        "output directory already exists: /tmp/out/AppIcon.appiconset. Use --force to overwrite."
    );
}

#[test]
fn resolve_model_prefers_cli_then_env_then_config_then_default() {
    let cfg = AppConfig {
        openai_key: None,
        model: Some("cfg-model".to_string()),
    };

    assert_eq!(
        resolve_model(Some("cli-model"), Some("env-model"), Some(&cfg)),
        "cli-model"
    );
    assert_eq!(resolve_model(None, Some("env-model"), Some(&cfg)), "env-model");
    assert_eq!(resolve_model(None, None, Some(&cfg)), "cfg-model");
    assert_eq!(resolve_model(None, None, None), "gpt-image-1.5");
}

#[test]
fn resolve_model_skips_blank_values_and_trims() {
    let cfg = AppConfig { openai_key: None, model: Some("  cfg-model ".to_string()) };
    assert_eq!(resolve_model(Some("   "), Some(""), Some(&cfg)), "cfg-model");
    assert_eq!(resolve_model(Some(" cli "), None, None), "cli");
    let blank = AppConfig { openai_key: None, model: Some(" ".to_string()) };
    assert_eq!(resolve_model(None, Some("\t"), Some(&blank)), "gpt-image-1.5");
}

#[test]
fn resolve_api_key_prefers_env_then_config() {
    let cfg = AppConfig {
        openai_key: Some("cfg-key".to_string()),
        model: None,
    };

    assert_eq!(
        resolve_api_key(Some("env-key"), Some(&cfg)).expect("env key"),
        "env-key"
    );
    assert_eq!(
        resolve_api_key(None, Some(&cfg)).expect("config key"),
        "cfg-key"
    );
    assert!(resolve_api_key(None, None).is_err());
}

#[test]
fn missing_api_key_error_text() {
    let cfg = AppConfig { openai_key: Some("  ".to_string()), model: None };
    let err = resolve_api_key(Some(""), Some(&cfg)).unwrap_err();
    assert!(matches!(err, IconMakerError::MissingApiKey));
    assert_eq!(
        err.message(),
        "OpenAI API key is missing (set OPENAI_API_KEY or config openai_key)"
    );
}

#[test]
fn first_non_empty_picks_first_present_non_blank() {
    assert_eq!(first_non_empty(&[None, Some(" "), Some(" b "), Some("c")]), Some("b".to_string()));
    assert_eq!(first_non_empty(&[None, Some("\n")]), None);
    assert_eq!(first_non_empty(&[]), None);
}

fn orbit_args(out: &str) -> GenerateArgs {
    GenerateArgs {
        app_name: "Orbit".to_string(),
        subject: "rocket".to_string(),
        colors: "blue, orange".to_string(),
        style: IconStyle::Gradient,
        background: None,
        out: out.to_string(),
        model: None,
        seed: None,
        force: false,
        dry_run: true,
        verbose: false,
    }
}

#[test]
fn plan_and_dry_run_report_list_every_file() {
    let args = orbit_args("./build/icons");
    let plan = plan_generation(&args, Some("env-model"), None);
    assert_eq!(plan.appiconset_dir, "./build/icons/AppIcon.appiconset");
    assert_eq!(plan.contents_path, "./build/icons/AppIcon.appiconset/Contents.json");
    assert_eq!(plan.model, "env-model");
    assert_eq!(plan.specs.len(), 28);
    assert!(plan.prompt.contains("Background: subtle gradient based on blue, orange."));

    let lines = dry_run_report(&plan, Some(42));
    assert_eq!(lines.len(), 7 + 28);
    assert_eq!(lines[0], "Dry run");
    assert_eq!(lines[1], "Output directory: ./build/icons/AppIcon.appiconset");
    assert_eq!(lines[2], "Model: env-model");
    assert_eq!(lines[3], "Seed: 42");
    assert_eq!(lines[4], format!("Prompt:\n{}", plan.prompt));
    assert_eq!(lines[5], "Files to write:");
    assert_eq!(lines[6], "  ./build/icons/AppIcon.appiconset/Contents.json");
    assert_eq!(lines[7], "  ./build/icons/AppIcon.appiconset/icon-iphone-20pt@2x.png");
    assert_eq!(
        lines[34],
        "  ./build/icons/AppIcon.appiconset/icon-ios-marketing-1024pt@1x.png"
    );
}

#[test]
fn output_dir_join_does_not_double_slash() {
    let plan = plan_generation(&orbit_args("/tmp/out/"), None, None);
    assert_eq!(plan.appiconset_dir, "/tmp/out/AppIcon.appiconset");
    assert_eq!(plan.model, "gpt-image-1.5");
    let plan = plan_generation(&orbit_args(""), None, None);
    assert_eq!(plan.appiconset_dir, "AppIcon.appiconset");
}

#[test]
fn completion_report_and_request() {
    let mut args = orbit_args("out");
    args.model = Some("dall-e-3".to_string());
    let plan = plan_generation(&args, Some("env-model"), None);
    let lines = completion_report(&plan, None);
    assert_eq!(
        lines,
        vec![
            "Generated icon set in out/AppIcon.appiconset".to_string(),
            "Model: dall-e-3, seed: none".to_string(),
            "Wrote 28 icon files + Contents.json".to_string(),
        ]
    );
    let req = master_request(&plan, Some(7));
    assert_eq!(req.model, "dall-e-3");
    assert_eq!(req.size, "1024x1024");
    assert_eq!(req.seed, Some(7));
    assert_eq!(req.prompt, plan.prompt);
    assert_eq!(
        verbose_notice("gpt-image-1.5"),
        "Generating 1024x1024 master icon with model gpt-image-1.5..."
    );
    assert_eq!(seed_text(Some(18446744073709551615)), "18446744073709551615");
    assert_eq!(seed_text(Some(0)), "0");
}

#[test]
fn run_steps_follow_the_flags() {
    let trace = |dry_run: bool, verbose: bool| {
        let mut args = orbit_args("out");
        args.dry_run = dry_run;
        args.verbose = verbose;
        let mut steps = vec![RunStep::LoadConfig];
        while *steps.last().unwrap() != RunStep::Finished {
            steps.push(next_step(*steps.last().unwrap(), &args));
        }
        steps
    };
    assert_eq!(trace(true, true), vec![RunStep::LoadConfig, RunStep::PrintDryRun, RunStep::Finished]);
    assert_eq!(
        trace(false, false),
        vec![
            RunStep::LoadConfig,
            RunStep::PrepareOutputDir,
            RunStep::ResolveApiKey,
            RunStep::RequestMaster,
            RunStep::WriteIcons,
            RunStep::WriteContents,
            RunStep::PrintSummary,
            RunStep::Finished,
        ]
    );
    assert_eq!(trace(false, true)[3], RunStep::AnnounceModel);
}
