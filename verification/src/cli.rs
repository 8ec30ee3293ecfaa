//! The command line, and what each command asks for.

use vstd::prelude::*;
use vstd::string::StringExecFns;
use crate::config::Config;
use crate::context::{context_path, context_path_of};

verus! {

/// The command line.
#[derive(Debug, Clone)]
pub struct Cli {
    pub command: Commands,
}

/// The commands.
#[derive(Debug, Clone)]
pub enum Commands {
    /// Use a template at the requested location
    Use(UseArgs),
    /// Save a new template
    Save(SaveArgs),
    /// Display current configuration
    Config(ConfigArgs),
}

/// The arguments of `use`.
#[derive(Debug, Clone)]
pub struct UseArgs {
    /// the name of the template to work with
    pub template: String,
    /// the target location
    pub target: String,
    /// the file that holds the context: absent, given without a value, or
    /// given with a path
    pub context_file: Option<Option<String>>,
}

/// The arguments of `save`.
#[derive(Debug, Clone)]
pub struct SaveArgs {
    /// the name of the template to work with
    pub template: String,
    /// the target location
    pub target: String,
}

/// The arguments of `config`: none.
#[derive(Debug, Clone)]
pub struct ConfigArgs {}

/// What a command asks for, with every path resolved.
#[derive(Debug, Clone)]
pub enum Job {
    /// Materialise the template directory `template` into `target`, with the
    /// context read from `context_file` where there is one.
    Use { template: String, target: String, context_file: Option<String> },
    /// Capture the files of the directory `source` into the directory
    /// `store`.
    Save { source: String, store: String },
    /// Show the template directory.
    ShowConfig { template_dir: String },
}

/// A `Job` as the contracts see it.
pub enum JobModel {
    Use { template: Seq<char>, target: Seq<char>, context_file: Option<Seq<char>> },
    Save { source: Seq<char>, store: Seq<char> },
    ShowConfig { template_dir: Seq<char> },
}

impl DeepView for Job {
    type V = JobModel;

    open spec fn deep_view(&self) -> JobModel {
        match self {
            Job::Use { template, target, context_file } => JobModel::Use {
                template: template@,
                target: target@,
                context_file: context_file.deep_view(),
            },
            Job::Save { source, store } => JobModel::Save { source: source@, store: store@ },
            Job::ShowConfig { template_dir } => JobModel::ShowConfig {
                template_dir: template_dir@,
            },
        }
    }
}

/// The target used where the command line names none.
pub open spec fn default_target_path() -> Seq<char> {
    "./"@
}

/// The directory of the template `name`: below `template_dir`, and closed
/// by a separator.
pub open spec fn template_location(template_dir: Seq<char>, name: Seq<char>) -> Seq<char> {
    template_dir + "/"@ + name + "/"@
}

/// The directory in which the template `name` is stored.
pub open spec fn store_location(template_dir: Seq<char>, name: Seq<char>) -> Seq<char> {
    template_dir + "/"@ + name
}

/// What `command` asks for under the template directory `template_dir`.
pub open spec fn job_of(template_dir: Seq<char>, command: Commands) -> JobModel {
    match command {
        Commands::Use(args) => JobModel::Use {
            template: template_location(template_dir, args.template@),
            target: args.target@,
            context_file: context_path_of(args.context_file.deep_view()),
        },
        Commands::Save(args) => JobModel::Save {
            source: args.target@,
            store: store_location(template_dir, args.template@),
        },
        Commands::Config(_) => JobModel::ShowConfig { template_dir },
    }
}

/// The target used where the command line names none.
pub fn default_target() -> (target: String)
    ensures
        target@ == default_target_path(),
{
    String::from_str("./")
}

impl Cli {
    /// Resolves the command against the configuration.
    pub fn resolve(self, config: &Config) -> (job: Job)
        ensures
            job.deep_view() == job_of(config.template_dir@, self.command),
    {
        match self.command {
            Commands::Use(args) => {
                let mut template = config.template_dir.clone();
                template.append("/");
                template.append(args.template.as_str());
                template.append("/");
                Job::Use {
                    template,
                    target: args.target,
                    context_file: context_path(args.context_file),
                }
            },
            Commands::Save(args) => {
                let mut store = config.template_dir.clone();
                store.append("/");
                store.append(args.template.as_str());
                Job::Save { source: args.target, store }
            },
            Commands::Config(_) => Job::ShowConfig { template_dir: config.template_dir.clone() },
        }
    }
}

} // verus!
