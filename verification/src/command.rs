//! The two commands of the engine, compiling a source file and running a
//! program, each turned into the request that the supervisor carries out.

use vstd::prelude::*;
use crate::executor::{
    ExecuteOption, ExecuteOptionView, ExecutionRequest, ExecutionRequestView, ResourceLimit,
};
use crate::process::{Directory, DirectoryView};

verus! {

/// What is to be compiled.
#[derive(Debug, Clone, PartialEq, Eq)]
pub struct CompileOption {
    /// Language of the source file: `c` or `cpp`.
    pub language: String,
    /// Path of the source file.
    pub input_path: String,
    /// Path at which the compiler leaves the binary.
    pub output_path: String,
}

/// A `CompileOption` as contracts see it.
pub struct CompileOptionView {
    pub language: Seq<char>,
    pub input_path: Seq<char>,
    pub output_path: Seq<char>,
}

impl DeepView for CompileOption {
    type V = CompileOptionView;

    open spec fn deep_view(&self) -> CompileOptionView {
        CompileOptionView {
            language: self.language@,
            input_path: self.input_path@,
            output_path: self.output_path@,
        }
    }
}

/// What is to be run, and under which limits.
#[derive(Debug, Clone, PartialEq, Eq)]
pub struct RunOption {
    /// Language that the program was written in: `c` or `cpp`.
    pub language: String,
    /// Path of the program.
    pub file_path: String,
    /// File that the program reads as standard input.
    pub input_path: Option<String>,
    /// File that the program's standard output is written to.
    pub output_path: Option<String>,
    /// File that holds the expected output.
    pub answer_path: Option<String>,
    /// Processor time limit in whole seconds.
    pub time_limit: u64,
    /// Memory limit in bytes.
    pub memory_limit: u64,
    /// Environment of the program, each entry in the form `NAME=value`.
    pub envs: Vec<String>,
    pub directory: Directory,
}

/// A `RunOption` as contracts see it.
pub struct RunOptionView {
    pub language: Seq<char>,
    pub file_path: Seq<char>,
    pub input_path: Option<Seq<char>>,
    pub output_path: Option<Seq<char>>,
    pub answer_path: Option<Seq<char>>,
    pub time_limit: u64,
    pub memory_limit: u64,
    pub envs: Seq<Seq<char>>,
    pub directory: DirectoryView,
}

impl DeepView for RunOption {
    type V = RunOptionView;

    open spec fn deep_view(&self) -> RunOptionView {
        RunOptionView {
            language: self.language@,
            file_path: self.file_path@,
            input_path: self.input_path.deep_view(),
            output_path: self.output_path.deep_view(),
            answer_path: self.answer_path.deep_view(),
            time_limit: self.time_limit,
            memory_limit: self.memory_limit,
            envs: self.envs.deep_view(),
            directory: self.directory.deep_view(),
        }
    }
}

/// A placeholder in the argument template of a command.
#[derive(Debug, Clone, Copy, PartialEq, Eq, Structural)]
pub enum FlagToken {
    /// Stands for the path of the source file.
    INPUT,
    /// Stands for the path of the binary that the compiler writes.
    OUTPUT,
    /// Stands for the path of the program to run.
    BINARY,
}

impl DeepView for FlagToken {
    type V = FlagToken;

    open spec fn deep_view(&self) -> FlagToken {
        *self
    }
}

impl FlagToken {
    /// How the placeholder is written where nothing is filled in for it.
    pub open spec fn spelling(self) -> Seq<char> {
        match self {
            FlagToken::INPUT => "<INPUT>"@,
            FlagToken::OUTPUT => "<OUTPUT>"@,
            FlagToken::BINARY => "<BINARY>"@,
        }
    }

    /// How the placeholder is written where nothing is filled in for it.
    pub fn value(&self) -> (text: &'static str)
        ensures
            text@ == self.spelling(),
    {
        match *self {
            FlagToken::INPUT => "<INPUT>",
            FlagToken::OUTPUT => "<OUTPUT>",
            FlagToken::BINARY => "<BINARY>",
        }
    }
}

/// One argument of a template: a text that is handed on as it is, or a
/// placeholder for a path.
#[derive(Debug, Clone, Copy, PartialEq, Eq)]
pub enum Flag {
    Literal(&'static str),
    Placeholder(FlagToken),
}

/// A `Flag` as contracts see it.
pub enum FlagView {
    Literal(Seq<char>),
    Placeholder(FlagToken),
}

impl DeepView for Flag {
    type V = FlagView;

    open spec fn deep_view(&self) -> FlagView {
        match self {
            Flag::Literal(text) => FlagView::Literal(text@),
            Flag::Placeholder(token) => FlagView::Placeholder(*token),
        }
    }
}

/// A command as contracts see it: the path of the executable and the
/// template of its argument vector.
pub type CommandView = (Seq<char>, Seq<FlagView>);

/// The arguments that every compiler is given after its own name: the
/// source file, the flags `-O2 -Wall -lm`, and the binary to write.
pub open spec fn compiler_arguments() -> Seq<FlagView> {
    seq![
        FlagView::Placeholder(FlagToken::INPUT),
        FlagView::Literal("-O2"@),
        FlagView::Literal("-Wall"@),
        FlagView::Literal("-lm"@),
        FlagView::Literal("-o"@),
        FlagView::Placeholder(FlagToken::OUTPUT),
    ]
}

/// The compiler of a language and the template of its argument vector.
/// Only `c` and `cpp` have one.
pub open spec fn compile_flags(language: Seq<char>) -> Option<CommandView> {
    if language == "c"@ {
        Some(("/usr/bin/gcc"@, seq![FlagView::Literal("gcc"@)] + compiler_arguments()))
    } else if language == "cpp"@ {
        Some(("/usr/bin/g++"@, seq![FlagView::Literal("g++"@)] + compiler_arguments()))
    } else {
        None
    }
}

/// The template of the argument vector with which a program written in
/// `language` is run. Only `c` and `cpp` have one.
pub open spec fn run_flags(language: Seq<char>) -> Option<Seq<FlagView>> {
    if language == "c"@ || language == "cpp"@ {
        Some(seq![FlagView::Placeholder(FlagToken::BINARY)])
    } else {
        None
    }
}

/// Whether `a` and `b` hold the same text.
fn same_text(a: &str, b: &str) -> (same: bool)
    ensures
        same == (a@ == b@),
{
    let left = a.to_string();
    let right = b.to_string();
    left == right
}

/// The compiler of a language and the template of its argument vector.
pub fn get_compile_flags(language: &str) -> (flags: Option<(&'static str, Vec<Flag>)>)
    ensures
        flags.deep_view() == compile_flags(language@),
{
    let compiler: &'static str;
    let name: &'static str;
    if same_text(language, "c") {
        compiler = "/usr/bin/gcc";
        name = "gcc";
    } else if same_text(language, "cpp") {
        compiler = "/usr/bin/g++";
        name = "g++";
    } else {
        return None;
    }
    let template = vec![
        Flag::Literal(name),
        Flag::Placeholder(FlagToken::INPUT),
        Flag::Literal("-O2"),
        Flag::Literal("-Wall"),
        Flag::Literal("-lm"),
        Flag::Literal("-o"),
        Flag::Placeholder(FlagToken::OUTPUT),
    ];
    assert(template.deep_view() =~= seq![FlagView::Literal(name@)] + compiler_arguments());
    Some((compiler, template))
}

/// The template of the argument vector with which a program written in
/// `language` is run.
pub fn get_run_flags(language: &str) -> (flags: Option<Vec<Flag>>)
    ensures
        flags.deep_view() == run_flags(language@),
{
    if same_text(language, "c") || same_text(language, "cpp") {
        let template = vec![Flag::Placeholder(FlagToken::BINARY)];
        assert(template.deep_view() =~= run_flags(language@).unwrap());
        Some(template)
    } else {
        None
    }
}

/// What is filled in for the placeholder `token`: the value that goes with
/// its first occurrence in `values`, and its spelling where it does not
/// occur.
pub open spec fn value_of(token: FlagToken, values: Seq<(FlagToken, Seq<char>)>) -> Seq<char>
    decreases values.len(),
{
    if values.len() == 0 {
        token.spelling()
    } else if values[0].0 == token {
        values[0].1
    } else {
        value_of(token, values.drop_first())
    }
}

/// An argument of a template once the placeholders are filled in.
pub open spec fn fill(arg: FlagView, values: Seq<(FlagToken, Seq<char>)>) -> Seq<char> {
    match arg {
        FlagView::Literal(text) => text,
        FlagView::Placeholder(token) => value_of(token, values),
    }
}

/// A template once the placeholders are filled in, argument by argument.
pub open spec fn fill_all(template: Seq<FlagView>, values: Seq<(FlagToken, Seq<char>)>) -> Seq<
    Seq<char>,
> {
    template.map_values(|arg: FlagView| fill(arg, values))
}

/// Looks up what is filled in for a placeholder.
fn lookup<'a>(token: FlagToken, values: &Vec<(FlagToken, &'a str)>) -> (text: &'a str)
    ensures
        text@ == value_of(token, values.deep_view()),
{
    let mut text: &'a str = token.value();
    let mut j: usize = values.len();
    assert(values.deep_view().skip(j as int) =~= seq![]);
    while j > 0
        invariant
            j <= values.len(),
            text@ == value_of(token, values.deep_view().skip(j as int)),
        decreases j,
    {
        j -= 1;
        assert(values.deep_view().skip(j as int).drop_first() =~= values.deep_view().skip(j + 1));
        assert(values.deep_view().skip(j as int)[0] == (values[j as int].0, values[j as int].1@));
        if values[j].0 == token {
            text = values[j].1;
        }
    }
    assert(values.deep_view().skip(0) =~= values.deep_view());
    text
}

/// Fills in the placeholders of a template.
pub fn fill_template(template: &Vec<Flag>, values: &Vec<(FlagToken, &str)>) -> (args: Vec<String>)
    ensures
        args.deep_view() == fill_all(template.deep_view(), values.deep_view()),
{
    let ghost filled = fill_all(template.deep_view(), values.deep_view());
    let mut args: Vec<String> = Vec::new();
    let mut i: usize = 0;
    assert(args.deep_view() =~= filled.take(0));
    while i < template.len()
        invariant
            i <= template.len(),
            filled == fill_all(template.deep_view(), values.deep_view()),
            args.deep_view() == filled.take(i as int),
        decreases template.len() - i,
    {
        let text = match template[i] {
            Flag::Literal(text) => text,
            Flag::Placeholder(token) => lookup(token, values),
        };
        assert(template.deep_view()[i as int] == template[i as int].deep_view());
        let ghost before = args.deep_view();
        args.push(text.to_string());
        assert(args.deep_view() =~= before.push(text@));
        assert(args.deep_view() =~= filled.take(i + 1));
        i += 1;
    }
    assert(filled.take(i as int) =~= filled);
    args
}

/// The options of a run that sets no limit, redirects nothing, confines
/// nothing and installs no policy.
pub open spec fn plain_option() -> ExecuteOptionView {
    ExecuteOptionView {
        envs: None,
        limits: None,
        input_path: None,
        output_path: None,
        answer_path: None,
        directory: None,
        use_syscall: false,
    }
}

/// The request that compiles a source file: the compiler of its language,
/// called on the source file with the flags `-O2 -Wall -lm` and told to
/// write the binary to the output path. `None` for a language that the
/// engine does not know.
pub open spec fn compile_request(opt: CompileOptionView) -> Option<ExecutionRequestView> {
    if opt.language == "c"@ {
        Some(
            ExecutionRequestView {
                binary: "/usr/bin/gcc"@,
                args: seq![
                    "gcc"@,
                    opt.input_path,
                    "-O2"@,
                    "-Wall"@,
                    "-lm"@,
                    "-o"@,
                    opt.output_path,
                ],
                option: plain_option(),
            },
        )
    } else if opt.language == "cpp"@ {
        Some(
            ExecutionRequestView {
                binary: "/usr/bin/g++"@,
                args: seq![
                    "g++"@,
                    opt.input_path,
                    "-O2"@,
                    "-Wall"@,
                    "-lm"@,
                    "-o"@,
                    opt.output_path,
                ],
                option: plain_option(),
            },
        )
    } else {
        None
    }
}

/// The request that runs a program: the program itself with its own path
/// as its only argument, under the limits given, with the environment, the
/// redirections and the confinement given, and under the syscall policy.
/// `None` for a language that the engine does not know.
pub open spec fn run_request(opt: RunOptionView) -> Option<ExecutionRequestView> {
    if opt.language == "c"@ || opt.language == "cpp"@ {
        Some(
            ExecutionRequestView {
                binary: opt.file_path,
                args: seq![opt.file_path],
                option: ExecuteOptionView {
                    envs: Some(opt.envs),
                    limits: Some(ResourceLimit { memory: opt.memory_limit, time: opt.time_limit }),
                    input_path: opt.input_path,
                    output_path: opt.output_path,
                    answer_path: opt.answer_path,
                    directory: Some(opt.directory),
                    use_syscall: true,
                },
            },
        )
    } else {
        None
    }
}

/// The values that a compilation has for the placeholders.
pub open spec fn compile_values(opt: CompileOptionView) -> Seq<(FlagToken, Seq<char>)> {
    seq![(FlagToken::INPUT, opt.input_path), (FlagToken::OUTPUT, opt.output_path)]
}

/// The values that a run has for the placeholders.
pub open spec fn run_values(opt: RunOptionView) -> Seq<(FlagToken, Seq<char>)> {
    seq![(FlagToken::BINARY, opt.file_path)]
}

/// The request of a compilation is the compiler's template with the paths
/// filled in: the source file and the binary stand where the placeholders
/// stood, and every other argument is as the template has it.
pub proof fn compile_request_fills_the_template(opt: CompileOptionView)
    ensures
        compile_request(opt) is Some <==> compile_flags(opt.language) is Some,
        compile_request(opt) matches Some(request) ==> {
            &&& request.binary == compile_flags(opt.language).unwrap().0
            &&& request.args == fill_all(
                compile_flags(opt.language).unwrap().1,
                compile_values(opt),
            )
        },
{
    reveal_with_fuel(value_of, 3);
    let values = compile_values(opt);
    assert(values.drop_first() =~= seq![(FlagToken::OUTPUT, opt.output_path)]);
    assert(value_of(FlagToken::INPUT, values) == opt.input_path);
    assert(value_of(FlagToken::OUTPUT, values) == opt.output_path);
    if compile_request(opt) is Some {
        assert(compile_request(opt).unwrap().args =~= fill_all(
            compile_flags(opt.language).unwrap().1,
            values,
        ));
    }
}

/// The request of a run is the run template with the path of the program
/// filled in.
pub proof fn run_request_fills_the_template(opt: RunOptionView)
    ensures
        run_request(opt) is Some <==> run_flags(opt.language) is Some,
        run_request(opt) matches Some(request) ==> request.args == fill_all(
            run_flags(opt.language).unwrap(),
            run_values(opt),
        ),
{
    assert(value_of(FlagToken::BINARY, run_values(opt)) == opt.file_path);
    if run_request(opt) is Some {
        assert(run_request(opt).unwrap().args =~= fill_all(
            run_flags(opt.language).unwrap(),
            run_values(opt),
        ));
    }
}

/// Turns a compilation into the request that carries it out.
pub fn compile(opt: CompileOption) -> (request: Option<ExecutionRequest>)
    ensures
        request.deep_view() == compile_request(opt.deep_view()),
{
    let compiler: &str;
    let template: Vec<Flag>;
    match get_compile_flags(opt.language.as_str()) {
        Some(flags) => {
            compiler = flags.0;
            template = flags.1;
        },
        None => {
            return None;
        },
    }
    let values = vec![
        (FlagToken::INPUT, opt.input_path.as_str()),
        (FlagToken::OUTPUT, opt.output_path.as_str()),
    ];
    assert(values.deep_view() =~= compile_values(opt.deep_view()));
    let args = fill_template(&template, &values);
    proof {
        compile_request_fills_the_template(opt.deep_view());
    }
    Some(
        ExecutionRequest {
            binary: compiler.to_string(),
            args,
            option: ExecuteOption {
                envs: None,
                limits: None,
                input_path: None,
                output_path: None,
                answer_path: None,
                directory: None,
                use_syscall: false,
            },
        },
    )
}

/// Turns a run into the request that carries it out.
pub fn run(opt: RunOption) -> (request: Option<ExecutionRequest>)
    ensures
        request.deep_view() == run_request(opt.deep_view()),
{
    let template = match get_run_flags(opt.language.as_str()) {
        Some(template) => template,
        None => {
            return None;
        },
    };
    let values = vec![(FlagToken::BINARY, opt.file_path.as_str())];
    assert(values.deep_view() =~= run_values(opt.deep_view()));
    let args = fill_template(&template, &values);
    proof {
        run_request_fills_the_template(opt.deep_view());
    }
    let rlimit = ResourceLimit { time: opt.time_limit, memory: opt.memory_limit };
    Some(
        ExecutionRequest {
            binary: opt.file_path,
            args,
            option: ExecuteOption {
                envs: Some(opt.envs),
                limits: Some(rlimit),
                input_path: opt.input_path,
                output_path: opt.output_path,
                answer_path: opt.answer_path,
                directory: Some(opt.directory),
                use_syscall: true,
            },
        },
    )
}

/// Every request that the two commands make is well formed: a run under
/// the syscall policy names its limits, so that its outcome can be judged,
/// and a compilation is under no policy.
pub proof fn requests_are_well_formed(compilation: CompileOptionView, execution: RunOptionView)
    ensures
        compile_request(compilation) matches Some(request) ==> request.option.well_formed()
            && !request.option.use_syscall,
        run_request(execution) matches Some(request) ==> request.option.well_formed()
            && request.option.judge_option() is Some,
{
}

/// The two commands know the same languages.
pub proof fn commands_know_the_same_languages(language: Seq<char>)
    ensures
        compile_flags(language) is Some <==> run_flags(language) is Some,
        compile_flags(language) is Some <==> language == "c"@ || language == "cpp"@,
{
}

} // verus!
