//! Project generation: which files a new project gets, where they go and what
//! they hold. The steps are computed here; carrying them out (running cargo,
//! reading templates, writing and copying files) is the caller's part.
pub mod vm;

use vstd::prelude::*;

use crate::param::SystemConfig;
use crate::param::SystemConfigView;
use crate::param::VmConfigView;
use vm::generate_vm_module_file;
use vm::vm_module_step;
use crate::text::decimal;
use crate::text::decimal_string;
use crate::text::join;
use crate::text::join_path;
use crate::text::pairs_view;

verus! {

/// Generates projects.
pub struct Generator {}

/// Why a project could not be generated.
#[derive(Debug)]
pub enum GeneratorError {
    GenerateError(String),
}

/// One step of generating a project.
pub enum Step {
    /// Print the message and stop.
    Report(String),
    /// Create a Cargo project at the path (`cargo new <path>`).
    CreateProject(String),
    /// Write the content to the file.
    WriteFile { path: String, content: String },
    /// Read the template file, apply the replacements in order, write the result to the target.
    FillTemplate { template: String, target: String, replacements: Vec<(String, String)> },
    /// Append the line and a newline to the file.
    AppendLine { path: String, line: String },
    /// Create the directory and any missing parents.
    CreateDir(String),
    /// Copy a file.
    CopyFile { from: String, to: String },
}

pub enum StepView {
    Report(Seq<char>),
    CreateProject(Seq<char>),
    WriteFile { path: Seq<char>, content: Seq<char> },
    FillTemplate {
        template: Seq<char>,
        target: Seq<char>,
        replacements: Seq<(Seq<char>, Seq<char>)>,
    },
    AppendLine { path: Seq<char>, line: Seq<char> },
    CreateDir(Seq<char>),
    CopyFile { from: Seq<char>, to: Seq<char> },
}

impl View for Step {
    type V = StepView;

    open spec fn view(&self) -> StepView {
        match self {
            Step::Report(m) => StepView::Report(m@),
            Step::CreateProject(p) => StepView::CreateProject(p@),
            Step::WriteFile { path, content } => StepView::WriteFile {
                path: path@,
                content: content@,
            },
            Step::FillTemplate { template, target, replacements } => StepView::FillTemplate {
                template: template@,
                target: target@,
                replacements: pairs_view(replacements@),
            },
            Step::AppendLine { path, line } => StepView::AppendLine { path: path@, line: line@ },
            Step::CreateDir(p) => StepView::CreateDir(p@),
            Step::CopyFile { from, to } => StepView::CopyFile { from: from@, to: to@ },
        }
    }
}

/// The models of a list of steps.
pub open spec fn steps_view(steps: Seq<Step>) -> Seq<StepView> {
    steps.map_values(|s: Step| s@)
}

// ---------------------------------------------------------------------------
// Names
// ---------------------------------------------------------------------------

/// The directory that holds the templates.
pub fn make_template_dir() -> (r: String)
    ensures
        r@ == "template"@,
{
    String::from_str("template")
}

/// The name of Cargo's manifest.
pub fn make_cargo_toml() -> (r: String)
    ensures
        r@ == "Cargo.toml"@,
{
    proof {
        reveal_strlit("Cargo.");
        reveal_strlit("toml");
        reveal_strlit("Cargo.toml");
    }
    String::from_str("Cargo.").concat("toml")
}

/// The name of Cargo's configuration directory.
pub fn make_cargo_dir() -> (r: String)
    ensures
        r@ == ".cargo"@,
{
    proof {
        reveal_strlit(".");
        reveal_strlit("cargo");
        reveal_strlit(".cargo");
    }
    String::from_str(".").concat("cargo")
}

/// The name of Cargo's configuration file.
pub fn make_config_toml() -> (r: String)
    ensures
        r@ == "config.toml"@,
{
    proof {
        reveal_strlit("config.");
        reveal_strlit("toml");
        reveal_strlit("config.toml");
    }
    String::from_str("config.").concat("toml")
}

/// The name of the target description.
pub fn make_target_json() -> (r: String)
    ensures
        r@ == "target.json"@,
{
    proof {
        reveal_strlit("target.");
        reveal_strlit("json");
        reveal_strlit("target.json");
    }
    String::from_str("target.").concat("json")
}

/// The name of the linker script.
pub fn make_target_ld() -> (r: String)
    ensures
        r@ == "target.ld"@,
{
    proof {
        reveal_strlit("target.");
        reveal_strlit("ld");
        reveal_strlit("target.ld");
    }
    String::from_str("target.").concat("ld")
}

/// The name of the setup source.
pub fn make_setup_rs() -> (r: String)
    ensures
        r@ == "setup.rs"@,
{
    proof {
        reveal_strlit("setup.");
        reveal_strlit("rs");
        reveal_strlit("setup.rs");
    }
    String::from_str("setup.").concat("rs")
}

/// Asks the file system with `Path::exists`.
///
/// Trusted for nothing: the answer depends on the disk, and no clause is stated of it.
#[verifier::external_body]
fn path_exists(path: &str) -> bool {
    std::path::Path::new(path).exists()
}

/// Whether something exists at `path` now.
pub fn file_exists(path: &str) -> bool {
    path_exists(path)
}

// ---------------------------------------------------------------------------
// What a project gets
// ---------------------------------------------------------------------------

/// Where the project called `name` is created.
pub open spec fn project_path_of(name: Seq<char>) -> Seq<char> {
    "../proj/"@ + name
}

/// The placeholder in the setup template that stands for the number of CPUs.
pub open spec fn cpu_placeholder() -> Seq<char> {
    "{{NUM_OF_CPUS}}"@
}

/// The dependency line added to the project's manifest.
pub open spec fn violet_dependency() -> Seq<char> {
    "violet = { path = \""@ + "../../violet"@ + "\" }"@
}

/// What is reported when the project's directory is taken.
pub open spec fn exists_message(path: Seq<char>) -> Seq<char> {
    "Error: "@ + path + " already exists"@
}

/// The steps that write the modules of the machines, in order.
pub open spec fn vm_module_steps(path: Seq<char>, vms: Seq<(Seq<char>, VmConfigView)>) -> Seq<
    StepView,
>
    decreases vms.len(),
{
    if vms.len() == 0 {
        Seq::empty()
    } else {
        vm_module_steps(path, vms.drop_last()).push(
            vm_module_step(path, vms.last().0, vms.last().1),
        )
    }
}

/// The step that puts the main source in place, from its template.
pub open spec fn main_source_step(path: Seq<char>) -> StepView {
    StepView::CopyFile {
        from: join("template"@, "main.rs"@),
        to: join(join(path, "src"@), "main.rs"@),
    }
}

/// The steps that write the project's sources: the main source from its
/// template, a module for each machine, then the setup file, filled in from its
/// template with the number of physical CPUs.
pub open spec fn source_steps(path: Seq<char>, system: SystemConfigView) -> Seq<StepView> {
    seq![main_source_step(path)] + vm_module_steps(path, system.vms) + seq![
        StepView::FillTemplate {
            template: join("template"@, "setup.rs"@),
            target: join(join(path, "src"@), "setup.rs"@),
            replacements: seq![(cpu_placeholder(), decimal(system.environment.num_of_cpus as nat))],
        },
    ]
}

/// The steps that set up Cargo's and the target's configuration.
pub open spec fn config_steps(path: Seq<char>) -> Seq<StepView> {
    seq![
        StepView::CreateDir(join(path, ".cargo"@)),
        StepView::CopyFile {
            from: join(join("template"@, ".cargo"@), "config.toml"@),
            to: join(join(path, ".cargo"@), "config.toml"@),
        },
        StepView::CopyFile {
            from: join("template"@, "target.json"@),
            to: join(path, "target.json"@),
        },
        StepView::CopyFile { from: join("template"@, "target.ld"@), to: join(path, "target.ld"@) },
    ]
}

/// All steps of generating a project at `path`, given whether something already
/// exists there.
pub open spec fn generation_steps(path: Seq<char>, system: SystemConfigView, exists: bool) -> Seq<
    StepView,
> {
    if exists {
        seq![StepView::Report(exists_message(path))]
    } else {
        seq![StepView::CreateProject(path)] + source_steps(path, system) + seq![
            StepView::AppendLine { path: join(path, "Cargo.toml"@), line: violet_dependency() },
        ] + config_steps(path)
    }
}

/// The steps that write the project's sources.
pub fn generate_source(path: &str, system: &SystemConfig) -> (r: Vec<Step>)
    ensures
        steps_view(r@) == source_steps(path@, system@),
{
    let template = join_path(make_template_dir().as_str(), make_setup_rs().as_str());
    let src_dir = join_path(path, "src");
    let target = join_path(src_dir.as_str(), make_setup_rs().as_str());
    let mut replacements: Vec<(String, String)> = Vec::new();
    replacements.push(
        (String::from_str("{{NUM_OF_CPUS}}"), decimal_string(system.environment.num_of_cpus)),
    );
    let ghost vms = system@.vms;
    let mut steps: Vec<Step> = Vec::new();
    let main_from = join_path(make_template_dir().as_str(), "main.rs");
    let main_to = join_path(src_dir.as_str(), "main.rs");
    steps.push(Step::CopyFile { from: main_from, to: main_to });
    let mut i: usize = 0;
    proof {
        assert(vms.take(0) =~= Seq::<(Seq<char>, VmConfigView)>::empty());
        assert(steps_view(steps@) =~= seq![main_source_step(path@)] + vm_module_steps(
            path@,
            vms.take(0),
        ));
    }
    while i < system.vms.len()
        invariant
            0 <= i <= system.vms@.len(),
            vms == system@.vms,
            vms.len() == system.vms@.len(),
            steps_view(steps@) == seq![main_source_step(path@)] + vm_module_steps(
                path@,
                vms.take(i as int),
            ),
        decreases system.vms@.len() - i,
    {
        let step = generate_vm_module_file(path, &system.vms[i].1, &system.vms[i].0);
        let ghost before = steps@;
        steps.push(step);
        proof {
            assert(vms.take(i + 1).drop_last() =~= vms.take(i as int));
            assert(vms[i as int] == (system.vms@[i as int].0@, system.vms@[i as int].1@));
            assert(steps_view(steps@) =~= steps_view(before).push(step@));
        }
        i = i + 1;
    }
    proof {
        assert(vms.take(i as int) =~= vms);
    }
    let ghost module_steps = steps_view(steps@);
    steps.push(Step::FillTemplate { template, target, replacements });
    proof {
        assert(pairs_view(replacements@) =~= seq![
            (cpu_placeholder(), decimal(system@.environment.num_of_cpus as nat)),
        ]);
        assert(steps_view(steps@) =~= source_steps(path@, system@));
    }
    steps
}

/// The step that adds the hypervisor as a dependency of the project.
pub fn modify_cargo_toml(path: &str) -> (r: Step)
    ensures
        r@ == (StepView::AppendLine { path: join(path@, "Cargo.toml"@), line: violet_dependency() }),
{
    let cargo_path = join_path(path, make_cargo_toml().as_str());
    let line = String::from_str("violet = { path = \"").concat("../../violet").concat("\" }");
    Step::AppendLine { path: cargo_path, line }
}

/// The steps that set up Cargo's and the target's configuration.
pub fn generate_config_toml(path: &str) -> (r: Vec<Step>)
    ensures
        steps_view(r@) == config_steps(path@),
{
    let cargo_dir = join_path(path, make_cargo_dir().as_str());
    let template_cargo_dir = join_path(make_template_dir().as_str(), make_cargo_dir().as_str());
    let config_src = join_path(template_cargo_dir.as_str(), make_config_toml().as_str());
    let config_dst = join_path(cargo_dir.as_str(), make_config_toml().as_str());
    let json_src = join_path(make_template_dir().as_str(), make_target_json().as_str());
    let json_dst = join_path(path, make_target_json().as_str());
    let ld_src = join_path(make_template_dir().as_str(), make_target_ld().as_str());
    let ld_dst = join_path(path, make_target_ld().as_str());
    let mut steps: Vec<Step> = Vec::new();
    steps.push(Step::CreateDir(cargo_dir));
    steps.push(Step::CopyFile { from: config_src, to: config_dst });
    steps.push(Step::CopyFile { from: json_src, to: json_dst });
    steps.push(Step::CopyFile { from: ld_src, to: ld_dst });
    proof {
        assert(steps_view(steps@) =~= config_steps(path@));
    }
    steps
}

impl Generator {
    /// Where the project called `name` is created.
    pub fn project_path(name: &str) -> (r: String)
        ensures
            r@ == project_path_of(name@),
    {
        String::from_str("../proj/").concat(name)
    }

    /// The steps of generating a project at `path`, given whether something
    /// already exists there: then only a report; otherwise creating the Cargo
    /// project, writing its sources, adding the dependency and the configuration.
    pub fn steps(path: &str, system: &SystemConfig, exists: bool) -> (r: Vec<Step>)
        ensures
            steps_view(r@) == generation_steps(path@, system@, exists),
    {
        let mut steps: Vec<Step> = Vec::new();
        if exists {
            let message = String::from_str("Error: ").concat(path).concat(" already exists");
            steps.push(Step::Report(message));
            proof {
                assert(steps_view(steps@) =~= generation_steps(path@, system@, exists));
            }
            return steps;
        }
        steps.push(Step::CreateProject(String::from_str(path)));
        let mut source = generate_source(path, system);
        let ghost sv = steps_view(steps@);
        steps.append(&mut source);
        proof {
            assert(steps_view(steps@) =~= sv + source_steps(path@, system@));
        }
        let ghost sv2 = steps_view(steps@);
        steps.push(modify_cargo_toml(path));
        proof {
            assert(steps_view(steps@) =~= sv2 + seq![
                StepView::AppendLine { path: join(path@, "Cargo.toml"@), line: violet_dependency() },
            ]);
        }
        let mut config = generate_config_toml(path);
        let ghost sv3 = steps_view(steps@);
        steps.append(&mut config);
        proof {
            assert(steps_view(steps@) =~= sv3 + config_steps(path@));
            assert(steps_view(steps@) =~= generation_steps(path@, system@, exists));
        }
        steps
    }
}

// ---------------------------------------------------------------------------
// Laws
// ---------------------------------------------------------------------------

/// Where something already exists at the project's path, generating only reports
/// it: nothing is created, written, appended or copied.
pub proof fn law_existing_project_untouched(path: Seq<char>, system: SystemConfigView)
    ensures
        generation_steps(path, system, true) == seq![StepView::Report(exists_message(path))],
{
}

/// A new project is first created at its path; it then gets its main source from
/// the template, a module per machine, its setup file (the
/// template with the placeholder replaced by the decimal numeral of the number of
/// physical CPUs), the dependency line in its manifest, Cargo's configuration and
/// the target files, and nothing is reported.
#[verifier::rlimit(60)]
pub proof fn law_new_project_layout(path: Seq<char>, system: SystemConfigView)
    ensures
        ({
            let steps = generation_steps(path, system, false);
            let n = system.vms.len() as int;
            &&& steps.len() == n + 8
            &&& steps[0] == StepView::CreateProject(path)
            &&& steps[1] == main_source_step(path)
            &&& steps[n + 2] == (StepView::FillTemplate {
                template: join("template"@, "setup.rs"@),
                target: join(join(path, "src"@), "setup.rs"@),
                replacements: seq![
                    (cpu_placeholder(), decimal(system.environment.num_of_cpus as nat)),
                ],
            })
            &&& steps[n + 3] == (StepView::AppendLine {
                path: join(path, "Cargo.toml"@),
                line: violet_dependency(),
            })
            &&& steps[n + 4] == StepView::CreateDir(join(path, ".cargo"@))
            &&& steps[n + 5] == (StepView::CopyFile {
                from: join(join("template"@, ".cargo"@), "config.toml"@),
                to: join(join(path, ".cargo"@), "config.toml"@),
            })
            &&& steps[n + 6] == (StepView::CopyFile {
                from: join("template"@, "target.json"@),
                to: join(path, "target.json"@),
            })
            &&& steps[n + 7] == (StepView::CopyFile {
                from: join("template"@, "target.ld"@),
                to: join(path, "target.ld"@),
            })
            &&& forall|i: int| 0 <= i < steps.len() ==> !(#[trigger] steps[i] is Report)
        }),
{
    lemma_vm_module_steps(path, system.vms);
    let steps = generation_steps(path, system, false);
    let n = system.vms.len() as int;
    let modules = vm_module_steps(path, system.vms);
    let src = source_steps(path, system);
    let tail = seq![
        StepView::AppendLine { path: join(path, "Cargo.toml"@), line: violet_dependency() },
    ] + config_steps(path);
    assert(src.len() == n + 2);
    assert(src[0] == main_source_step(path));
    assert forall|i: int| 1 <= i < n + 1 implies src[i] == modules[i - 1] by {}
    assert(steps =~= seq![StepView::CreateProject(path)] + src + tail);
    assert(tail.len() == 5);
    assert forall|i: int| n + 3 <= i < n + 8 implies steps[i] == tail[i - n - 3] by {}
    assert forall|i: int| 0 <= i < steps.len() implies !(#[trigger] steps[i] is Report) by {
        if 2 <= i < n + 2 {
            assert(steps[i] == vm_module_steps(path, system.vms)[i - 2]);
        }
    }
}

/// Each machine's module is written, in the order of the machines, to
/// `src/<machine type>.rs` under the project.
pub proof fn lemma_vm_module_steps(path: Seq<char>, vms: Seq<(Seq<char>, VmConfigView)>)
    ensures
        vm_module_steps(path, vms).len() == vms.len(),
        forall|i: int|
            0 <= i < vms.len() ==> #[trigger] vm_module_steps(path, vms)[i] == vm_module_step(
                path,
                vms[i].0,
                vms[i].1,
            ),
    decreases vms.len(),
{
    if vms.len() > 0 {
        lemma_vm_module_steps(path, vms.drop_last());
    }
}

} // verus!
