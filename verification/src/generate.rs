//! Settings resolution and run planning for the `generate` command.
use vstd::prelude::*;
use crate::cli::GenerateArgs;
use crate::config::{AppConfig, opt_string_view};
use crate::error::IconMakerError;
use crate::iconset::{IconSpec, apple_icon_specs, icon_specs, spec_views};
use crate::openai::GenerationRequest;
use crate::prompt::{PromptInput, compose_prompt, opt_str_view, prompt_lines};
use crate::text::{decimal, decimal_string, join_lines, join_path, join_path_spec, trim, trimmed};

verus! {

/// The model used when none is configured.
pub open spec fn default_model() -> Seq<char> {
    "gpt-image-1.5"@
}

/// The trimmed first value that is present and not blank.
pub open spec fn first_non_blank(values: Seq<Option<Seq<char>>>) -> Option<Seq<char>>
    decreases values.len(),
{
    if values.len() == 0 {
        None
    } else {
        match values[0] {
            Some(v) if trim(v).len() > 0 => Some(trim(v)),
            _ => first_non_blank(values.drop_first()),
        }
    }
}

/// The first value that is present and not blank, trimmed.
pub fn first_non_empty(values: &[Option<&str>]) -> (r: Option<String>)
    ensures
        opt_string_view(r) == first_non_blank(values@.map_values(|o: Option<&str>| opt_str_view(o))),
{
    let ghost views = values@.map_values(|o: Option<&str>| opt_str_view(o));
    let n = values.len();
    let mut i: usize = 0;
    assert(views.subrange(0, n as int) =~= views);
    while i < n
        invariant
            n == values@.len(),
            i <= n,
            views == values@.map_values(|o: Option<&str>| opt_str_view(o)),
            first_non_blank(views) == first_non_blank(views.subrange(i as int, n as int)),
        decreases n - i,
    {
        let ghost rest = views.subrange(i as int, n as int);
        assert(rest.drop_first() =~= views.subrange(i + 1, n as int));
        assert(rest[0] == opt_str_view(values@[i as int]));
        if let Some(v) = values[i] {
            let t = trimmed(v);
            if t.unicode_len() > 0 {
                return Some(t);
            }
        }
        i = i + 1;
    }
    assert(views.subrange(n as int, n as int).len() == 0);
    None
}

/// The model configured in `config`, if any.
pub open spec fn config_model(config: Option<&AppConfig>) -> Option<Seq<char>> {
    match config {
        Some(c) => opt_string_view(c.model),
        None => None,
    }
}

/// The API key configured in `config`, if any.
pub open spec fn config_key(config: Option<&AppConfig>) -> Option<Seq<char>> {
    match config {
        Some(c) => opt_string_view(c.openai_key),
        None => None,
    }
}

/// The model to use: `--model`, then `OPENAI_MODEL`, then the config file,
/// then the default; blank values are skipped.
pub open spec fn resolved_model(
    cli_model: Option<Seq<char>>,
    env_model: Option<Seq<char>>,
    config: Option<&AppConfig>,
) -> Seq<char> {
    match first_non_blank(seq![cli_model, env_model, config_model(config)]) {
        Some(m) => m,
        None => default_model(),
    }
}

fn model_of(config: Option<&AppConfig>) -> (m: Option<&str>)
    ensures
        opt_str_view(m) == config_model(config),
{
    match config {
        Some(cfg) => match &cfg.model {
            Some(m) => Some(m.as_str()),
            None => None,
        },
        None => None,
    }
}

fn key_of(config: Option<&AppConfig>) -> (k: Option<&str>)
    ensures
        opt_str_view(k) == config_key(config),
{
    match config {
        Some(cfg) => match &cfg.openai_key {
            Some(k) => Some(k.as_str()),
            None => None,
        },
        None => None,
    }
}

/// Whether the optional value is present and not blank.
pub open spec fn non_blank(value: Option<Seq<char>>) -> bool {
    value matches Some(v) && trim(v).len() > 0
}

/// Model precedence: `--model`, then `OPENAI_MODEL`, then the config file's
/// `model`, then `gpt-image-1.5`; a blank value counts as absent, and the
/// value used is trimmed.
pub proof fn lemma_model_precedence(
    cli_model: Option<Seq<char>>,
    env_model: Option<Seq<char>>,
    config: Option<&AppConfig>,
)
    ensures
        resolved_model(cli_model, env_model, config) == if non_blank(cli_model) {
            trim(cli_model->0)
        } else if non_blank(env_model) {
            trim(env_model->0)
        } else if non_blank(config_model(config)) {
            trim(config_model(config)->0)
        } else {
            default_model()
        },
{
    let s = seq![cli_model, env_model, config_model(config)];
    let s1 = seq![env_model, config_model(config)];
    let s2 = seq![config_model(config)];
    let s3 = Seq::<Option<Seq<char>>>::empty();
    assert(s.drop_first() =~= s1);
    assert(s1.drop_first() =~= s2);
    assert(s2.drop_first() =~= s3);
    assert(first_non_blank(s3) == None::<Seq<char>>);
    assert(first_non_blank(s2) == if non_blank(s2[0]) { Some(trim(s2[0]->0)) } else { first_non_blank(s3) });
    assert(first_non_blank(s1) == if non_blank(s1[0]) { Some(trim(s1[0]->0)) } else { first_non_blank(s2) });
    assert(first_non_blank(s) == if non_blank(s[0]) { Some(trim(s[0]->0)) } else { first_non_blank(s1) });
}

/// API key precedence: `OPENAI_API_KEY`, then the config file's
/// `openai_key`; a blank value counts as absent, and the value used is
/// trimmed. Without either the run stops with the missing-key error.
pub proof fn lemma_api_key_precedence(env_api_key: Option<Seq<char>>, config: Option<&AppConfig>)
    ensures
        resolved_api_key(env_api_key, config) == if non_blank(env_api_key) {
            Some(trim(env_api_key->0))
        } else if non_blank(config_key(config)) {
            Some(trim(config_key(config)->0))
        } else {
            None::<Seq<char>>
        },
{
    let s = seq![env_api_key, config_key(config)];
    let s1 = seq![config_key(config)];
    let s2 = Seq::<Option<Seq<char>>>::empty();
    assert(s.drop_first() =~= s1);
    assert(s1.drop_first() =~= s2);
    assert(first_non_blank(s2) == None::<Seq<char>>);
    assert(first_non_blank(s1) == if non_blank(s1[0]) { Some(trim(s1[0]->0)) } else { first_non_blank(s2) });
    assert(first_non_blank(s) == if non_blank(s[0]) { Some(trim(s[0]->0)) } else { first_non_blank(s1) });
}

/// Picks the image model by precedence.
pub fn resolve_model(
    cli_model: Option<&str>,
    env_model: Option<&str>,
    config: Option<&AppConfig>,
) -> (m: String)
    ensures
        m@ == resolved_model(opt_str_view(cli_model), opt_str_view(env_model), config),
{
    let values = vec![cli_model, env_model, model_of(config)];
    assert(values@.map_values(|o: Option<&str>| opt_str_view(o)) =~= seq![
        opt_str_view(cli_model),
        opt_str_view(env_model),
        config_model(config),
    ]);
    match first_non_empty(values.as_slice()) {
        Some(m) => m,
        None => String::from_str("gpt-image-1.5"),
    }
}

/// The API key to use: `OPENAI_API_KEY`, then the config file; blank values are skipped.
pub open spec fn resolved_api_key(env_api_key: Option<Seq<char>>, config: Option<&AppConfig>) -> Option<
    Seq<char>,
> {
    first_non_blank(seq![env_api_key, config_key(config)])
}

/// Picks the API key by precedence; fails when neither source gives one.
pub fn resolve_api_key(env_api_key: Option<&str>, config: Option<&AppConfig>) -> (r: Result<
    String,
    IconMakerError,
>)
    ensures
        match resolved_api_key(opt_str_view(env_api_key), config) {
            Some(k) => r matches Ok(key) && key@ == k,
            None => r matches Err(IconMakerError::MissingApiKey),
        },
{
    let values = vec![env_api_key, key_of(config)];
    assert(values@.map_values(|o: Option<&str>| opt_str_view(o)) =~= seq![
        opt_str_view(env_api_key),
        config_key(config),
    ]);
    match first_non_empty(values.as_slice()) {
        Some(k) => Ok(k),
        None => Err(IconMakerError::MissingApiKey),
    }
}

/// What to do with the icon set directory before writing.
#[derive(Debug, Clone, Copy, PartialEq, Eq, Structural)]
pub enum OutputDirAction {
    /// Create the directory (and its parents).
    Create,
    /// Remove the existing directory with its contents, then create it again.
    ReplaceExisting,
}

/// Decides how to prepare the icon set directory: an existing one is only
/// replaced under `--force`.
pub fn prepare_output_dir(appiconset_dir: &str, exists: bool, force: bool) -> (r: Result<
    OutputDirAction,
    IconMakerError,
>)
    ensures
        !exists ==> r == Ok::<OutputDirAction, IconMakerError>(OutputDirAction::Create),
        exists && force ==> r == Ok::<OutputDirAction, IconMakerError>(
            OutputDirAction::ReplaceExisting,
        ),
        exists && !force ==> (r matches Err(IconMakerError::OutputExists(p)) && p@ == appiconset_dir@),
{
    if exists {
        if !force {
            return Err(IconMakerError::OutputExists(String::from_str(appiconset_dir)));
        }
        Ok(OutputDirAction::ReplaceExisting)
    } else {
        Ok(OutputDirAction::Create)
    }
}


/// Everything a run needs before it touches the disk or the network.
pub struct GenerationPlan {
    /// `<out>/AppIcon.appiconset`.
    pub appiconset_dir: String,
    /// `<out>/AppIcon.appiconset/Contents.json`.
    pub contents_path: String,
    pub specs: Vec<IconSpec>,
    pub model: String,
    pub prompt: String,
}

/// The prompt for the options of a `generate` command.
pub open spec fn args_prompt(args: GenerateArgs) -> Seq<char> {
    join_lines(
        prompt_lines(
            args.app_name@,
            args.style,
            args.subject@,
            opt_string_view(args.background),
            args.colors@,
        ),
    )
}

/// Plans a run: where the icon set goes, its images, the model and the prompt.
pub fn plan_generation(
    args: &GenerateArgs,
    env_model: Option<&str>,
    config: Option<&AppConfig>,
) -> (plan: GenerationPlan)
    ensures
        plan.appiconset_dir@ == join_path_spec(args.out@, "AppIcon.appiconset"@),
        plan.contents_path@ == join_path_spec(plan.appiconset_dir@, "Contents.json"@),
        spec_views(plan.specs@) == apple_icon_specs(),
        plan.model@ == resolved_model(opt_string_view(args.model), opt_str_view(env_model), config),
        plan.prompt@ == args_prompt(*args),
{
    let appiconset_dir = join_path(args.out.as_str(), "AppIcon.appiconset");
    let contents_path = join_path(appiconset_dir.as_str(), "Contents.json");
    let specs = icon_specs();
    let cli_model = match &args.model {
        Some(m) => Some(m.as_str()),
        None => None,
    };
    let model = resolve_model(cli_model, env_model, config);
    let background = match &args.background {
        Some(b) => Some(b.as_str()),
        None => None,
    };
    let input = PromptInput {
        app_name: args.app_name.as_str(),
        style: &args.style,
        subject: args.subject.as_str(),
        background,
        colors: args.colors.as_str(),
    };
    let prompt = compose_prompt(input);
    GenerationPlan { appiconset_dir, contents_path, specs, model, prompt }
}

/// The seed as shown to the user: its decimal value, or `none`.
pub open spec fn seed_label(seed: Option<u64>) -> Seq<char> {
    match seed {
        Some(v) => decimal(v as nat),
        None => "none"@,
    }
}

/// The seed as shown to the user.
pub fn seed_text(seed: Option<u64>) -> (t: String)
    ensures
        t@ == seed_label(seed),
{
    match seed {
        Some(v) => decimal_string(v),
        None => String::from_str("none"),
    }
}

/// Where the image `spec` is written in the icon set directory.
pub fn icon_path(appiconset_dir: &str, spec: &IconSpec) -> (p: String)
    ensures
        p@ == join_path_spec(appiconset_dir@, spec.filename@),
{
    join_path(appiconset_dir, spec.filename.as_str())
}

/// The lines of the dry-run report: the plan, then every file a real run writes.
pub open spec fn dry_run_lines(plan: GenerationPlan, seed: Option<u64>) -> Seq<Seq<char>> {
    seq![
        "Dry run"@,
        "Output directory: "@ + plan.appiconset_dir@,
        "Model: "@ + plan.model@,
        "Seed: "@ + seed_label(seed),
        "Prompt:\n"@ + plan.prompt@,
        "Files to write:"@,
        "  "@ + plan.contents_path@,
    ] + Seq::new(
        plan.specs@.len(),
        |i: int| "  "@ + join_path_spec(plan.appiconset_dir@, plan.specs@[i].filename@),
    )
}

/// The report of a dry run, one printed line per entry.
pub fn dry_run_report(plan: &GenerationPlan, seed: Option<u64>) -> (lines: Vec<String>)
    ensures
        lines@.map_values(|l: String| l@) == dry_run_lines(*plan, seed),
{
    let mut lines: Vec<String> = Vec::new();
    lines.push(String::from_str("Dry run"));
    lines.push(String::from_str("Output directory: ").concat(plan.appiconset_dir.as_str()));
    lines.push(String::from_str("Model: ").concat(plan.model.as_str()));
    let seed_shown = seed_text(seed);
    lines.push(String::from_str("Seed: ").concat(seed_shown.as_str()));
    lines.push(String::from_str("Prompt:\n").concat(plan.prompt.as_str()));
    lines.push(String::from_str("Files to write:"));
    lines.push(String::from_str("  ").concat(plan.contents_path.as_str()));
    let ghost expected = dry_run_lines(*plan, seed);
    assert(lines@.map_values(|l: String| l@) =~= expected.take(7));
    let mut i: usize = 0;
    while i < plan.specs.len()
        invariant
            i <= plan.specs.len(),
            expected == dry_run_lines(*plan, seed),
            expected.len() == 7 + plan.specs@.len(),
            lines@.map_values(|l: String| l@) == expected.take(7 + i),
        decreases plan.specs.len() - i,
    {
        let path = icon_path(plan.appiconset_dir.as_str(), &plan.specs[i]);
        let ghost before = lines@;
        let line = String::from_str("  ").concat(path.as_str());
        assert(expected[7 + i as int] == "  "@ + join_path_spec(
            plan.appiconset_dir@,
            plan.specs@[i as int].filename@,
        ));
        assert(line@ == expected[7 + i as int]);
        lines.push(line);
        assert(lines@.map_values(|l: String| l@) =~= before.map_values(|l: String| l@).push(
            expected[7 + i as int],
        ));
        assert(expected.take(7 + i + 1) =~= expected.take(7 + i as int).push(
            expected[7 + i as int],
        ));
        i = i + 1;
    }
    assert(expected.take(7 + plan.specs.len()) =~= expected);
    lines
}

/// The report printed after a run, one line per entry.
pub open spec fn completion_lines(plan: GenerationPlan, seed: Option<u64>) -> Seq<Seq<char>> {
    seq![
        "Generated icon set in "@ + plan.appiconset_dir@,
        "Model: "@ + plan.model@ + ", seed: "@ + seed_label(seed),
        "Wrote "@ + decimal(plan.specs@.len()) + " icon files + Contents.json"@,
    ]
}

/// The report printed after a run.
pub fn completion_report(plan: &GenerationPlan, seed: Option<u64>) -> (lines: Vec<String>)
    ensures
        lines@.map_values(|l: String| l@) == completion_lines(*plan, seed),
{
    let seed_shown = seed_text(seed);
    let count = decimal_string(plan.specs.len() as u64);
    let mut lines: Vec<String> = Vec::new();
    lines.push(String::from_str("Generated icon set in ").concat(plan.appiconset_dir.as_str()));
    lines.push(
        String::from_str("Model: ").concat(plan.model.as_str()).concat(", seed: ").concat(
            seed_shown.as_str(),
        ),
    );
    lines.push(
        String::from_str("Wrote ").concat(count.as_str()).concat(" icon files + Contents.json"),
    );
    assert(lines@.map_values(|l: String| l@) =~= completion_lines(*plan, seed));
    lines
}

/// The line printed under `--verbose` before the image is requested.
pub fn verbose_notice(model: &str) -> (line: String)
    ensures
        line@ == "Generating 1024x1024 master icon with model "@ + model@ + "..."@,
{
    String::from_str("Generating 1024x1024 master icon with model ").concat(model).concat("...")
}

/// The request for the 1024x1024 master image.
pub fn master_request(plan: &GenerationPlan, seed: Option<u64>) -> (req: GenerationRequest)
    ensures
        req.model@ == plan.model@,
        req.prompt@ == plan.prompt@,
        req.seed == seed,
        req.size@ == "1024x1024"@,
{
    GenerationRequest {
        model: plan.model.clone(),
        prompt: plan.prompt.clone(),
        seed,
        size: String::from_str("1024x1024"),
    }
}


/// The steps of a `generate` run. A step that fails ends the run with its error.
#[derive(Debug, Clone, Copy, PartialEq, Eq, Structural)]
pub enum RunStep {
    /// Read the config file and plan the run.
    LoadConfig,
    /// Print the dry-run report.
    PrintDryRun,
    /// Create (or, under `--force`, replace) the icon set directory.
    PrepareOutputDir,
    /// Pick the API key.
    ResolveApiKey,
    /// Print the `--verbose` notice.
    AnnounceModel,
    /// Ask the API for the master image and make it an opaque square.
    RequestMaster,
    /// Write the icon PNG files.
    WriteIcons,
    /// Write `Contents.json`.
    WriteContents,
    /// Print the completion report.
    PrintSummary,
    /// The run is over.
    Finished,
}

/// The step that follows `step` once it has succeeded.
pub open spec fn step_after(step: RunStep, dry_run: bool, verbose: bool) -> RunStep {
    match step {
        RunStep::LoadConfig => if dry_run {
            RunStep::PrintDryRun
        } else {
            RunStep::PrepareOutputDir
        },
        RunStep::PrintDryRun => RunStep::Finished,
        RunStep::PrepareOutputDir => RunStep::ResolveApiKey,
        RunStep::ResolveApiKey => if verbose {
            RunStep::AnnounceModel
        } else {
            RunStep::RequestMaster
        },
        RunStep::AnnounceModel => RunStep::RequestMaster,
        RunStep::RequestMaster => RunStep::WriteIcons,
        RunStep::WriteIcons => RunStep::WriteContents,
        RunStep::WriteContents => RunStep::PrintSummary,
        RunStep::PrintSummary => RunStep::Finished,
        RunStep::Finished => RunStep::Finished,
    }
}

/// The step that follows `step` once it has succeeded, for the options `args`.
pub fn next_step(step: RunStep, args: &GenerateArgs) -> (next: RunStep)
    ensures
        next == step_after(step, args.dry_run, args.verbose),
{
    match step {
        RunStep::LoadConfig => if args.dry_run {
            RunStep::PrintDryRun
        } else {
            RunStep::PrepareOutputDir
        },
        RunStep::PrintDryRun => RunStep::Finished,
        RunStep::PrepareOutputDir => RunStep::ResolveApiKey,
        RunStep::ResolveApiKey => if args.verbose {
            RunStep::AnnounceModel
        } else {
            RunStep::RequestMaster
        },
        RunStep::AnnounceModel => RunStep::RequestMaster,
        RunStep::RequestMaster => RunStep::WriteIcons,
        RunStep::WriteIcons => RunStep::WriteContents,
        RunStep::WriteContents => RunStep::PrintSummary,
        RunStep::PrintSummary => RunStep::Finished,
        RunStep::Finished => RunStep::Finished,
    }
}

/// The steps a run takes from `step` when every step succeeds, up to
/// `limit` more steps or until it is finished.
pub open spec fn run_trace(step: RunStep, dry_run: bool, verbose: bool, limit: nat) -> Seq<RunStep>
    decreases limit,
{
    if limit == 0 || step == RunStep::Finished {
        seq![step]
    } else {
        seq![step] + run_trace(step_after(step, dry_run, verbose), dry_run, verbose, (limit - 1) as nat)
    }
}

/// A dry run loads the config and prints its report, and does nothing else:
/// it creates no directory, asks for no key or image, and writes no file.
pub proof fn lemma_dry_run_only_reports(verbose: bool, limit: nat)
    requires
        limit >= 2,
    ensures
        run_trace(RunStep::LoadConfig, true, verbose, limit) == seq![
            RunStep::LoadConfig,
            RunStep::PrintDryRun,
            RunStep::Finished,
        ],
{
    assert(run_trace(RunStep::Finished, true, verbose, (limit - 2) as nat) == seq![RunStep::Finished]);
    assert(run_trace(RunStep::PrintDryRun, true, verbose, (limit - 1) as nat) =~= seq![
        RunStep::PrintDryRun,
        RunStep::Finished,
    ]);
    assert(run_trace(RunStep::LoadConfig, true, verbose, limit) =~= seq![
        RunStep::LoadConfig,
        RunStep::PrintDryRun,
        RunStep::Finished,
    ]);
}

/// A real run prepares the output directory before it needs the API key,
/// asks for the image only after that, and writes the icons, then
/// `Contents.json`, then reports.
pub proof fn lemma_full_run_order(verbose: bool)
    ensures
        run_trace(RunStep::LoadConfig, false, verbose, 9) == seq![
            RunStep::LoadConfig,
            RunStep::PrepareOutputDir,
            RunStep::ResolveApiKey,
        ] + (if verbose {
            seq![RunStep::AnnounceModel]
        } else {
            Seq::empty()
        }) + seq![
            RunStep::RequestMaster,
            RunStep::WriteIcons,
            RunStep::WriteContents,
            RunStep::PrintSummary,
            RunStep::Finished,
        ],
{
    reveal_with_fuel(run_trace, 10);
    let tail = seq![
        RunStep::RequestMaster,
        RunStep::WriteIcons,
        RunStep::WriteContents,
        RunStep::PrintSummary,
        RunStep::Finished,
    ];
    let head = seq![RunStep::LoadConfig, RunStep::PrepareOutputDir, RunStep::ResolveApiKey];
    if verbose {
        assert(run_trace(RunStep::LoadConfig, false, verbose, 9) =~= head + seq![
            RunStep::AnnounceModel,
        ] + tail);
    } else {
        assert(run_trace(RunStep::LoadConfig, false, verbose, 9) =~= head + Seq::empty() + tail);
    }
}

} // verus!
