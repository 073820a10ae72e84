use sandbox::command::{
    compile, fill_template, get_compile_flags, get_run_flags, run, CompileOption, Flag, FlagToken,
    RunOption,
};
use sandbox::executor::{ExecuteOption, ExecutionRequest, ResourceLimit};
use sandbox::process::Directory;

fn compile_option(language: &str) -> CompileOption {
    CompileOption {
        language: language.to_string(),
        input_path: "main.c".to_string(),
        output_path: "main".to_string(),
    }
}

fn run_option(language: &str) -> RunOption {
    RunOption {
        language: language.to_string(),
        file_path: "./main".to_string(),
        input_path: Some("1.in".to_string()),
        output_path: Some("1.out".to_string()),
        answer_path: Some("1.ans".to_string()),
        time_limit: 2,
        memory_limit: 262144000,
        envs: vec!["PATH=/usr/bin".to_string(), "LANG=C".to_string()],
        directory: Directory {
            working_dir: Some("/work".to_string()),
            root_dir: Some("/sandbox".to_string()),
        },
    }
}

fn strings(texts: &[&str]) -> Vec<String> {
    texts.iter().map(|text| text.to_string()).collect()
}

#[test]
fn placeholders_are_spelled_in_angle_brackets() {
    assert_eq!(FlagToken::INPUT.value(), "<INPUT>");
    assert_eq!(FlagToken::OUTPUT.value(), "<OUTPUT>");
    assert_eq!(FlagToken::BINARY.value(), "<BINARY>");
}

fn compiler_template(name: &'static str) -> Vec<Flag> {
    vec![
        Flag::Literal(name),
        Flag::Placeholder(FlagToken::INPUT),
        Flag::Literal("-O2"),
        Flag::Literal("-Wall"),
        Flag::Literal("-lm"),
        Flag::Literal("-o"),
        Flag::Placeholder(FlagToken::OUTPUT),
    ]
}

#[test]
fn c_is_compiled_with_gcc() {
    assert_eq!(get_compile_flags("c"), Some(("/usr/bin/gcc", compiler_template("gcc"))));
}

#[test]
fn cpp_is_compiled_with_gpp() {
    assert_eq!(get_compile_flags("cpp"), Some(("/usr/bin/g++", compiler_template("g++"))));
}

#[test]
fn other_languages_have_no_compiler() {
    assert_eq!(get_compile_flags("rust"), None);
    assert_eq!(get_compile_flags(""), None);
    assert_eq!(get_compile_flags("C"), None);
    assert_eq!(get_compile_flags("c "), None);
    assert_eq!(get_compile_flags("c++"), None);
    assert_eq!(get_run_flags("python"), None);
    assert_eq!(get_run_flags(""), None);
}

#[test]
fn a_program_is_run_by_its_own_path() {
    assert_eq!(get_run_flags("c"), Some(vec![Flag::Placeholder(FlagToken::BINARY)]));
    assert_eq!(get_run_flags("cpp"), Some(vec![Flag::Placeholder(FlagToken::BINARY)]));
}

#[test]
fn compile_fills_in_the_two_paths() {
    let request = compile(compile_option("c")).unwrap();
    assert_eq!(request.binary, "/usr/bin/gcc");
    assert_eq!(request.args, strings(&["gcc", "main.c", "-O2", "-Wall", "-lm", "-o", "main"]));
    let request = compile(compile_option("cpp")).unwrap();
    assert_eq!(request.binary, "/usr/bin/g++");
    assert_eq!(request.args, strings(&["g++", "main.c", "-O2", "-Wall", "-lm", "-o", "main"]));
}

#[test]
fn compile_sets_no_limit_and_no_policy() {
    let request = compile(compile_option("c")).unwrap();
    assert_eq!(
        request.option,
        ExecuteOption {
            envs: None,
            limits: None,
            input_path: None,
            output_path: None,
            answer_path: None,
            directory: None,
            use_syscall: false,
        }
    );
}

#[test]
fn compile_refuses_an_unknown_language() {
    assert_eq!(compile(compile_option("java")), None);
    assert_eq!(compile(compile_option("")), None);
}

#[test]
fn a_placeholder_takes_the_first_value_given_for_it() {
    let template = vec![
        Flag::Placeholder(FlagToken::BINARY),
        Flag::Literal("<BINARY>"),
        Flag::Placeholder(FlagToken::INPUT),
        Flag::Literal(""),
    ];
    let values = vec![
        (FlagToken::BINARY, "./first"),
        (FlagToken::INPUT, "in"),
        (FlagToken::BINARY, "./second"),
    ];
    assert_eq!(fill_template(&template, &values), strings(&["./first", "<BINARY>", "in", ""]));
}

#[test]
fn a_placeholder_without_a_value_stays_as_it_is_spelled() {
    let template = vec![Flag::Placeholder(FlagToken::OUTPUT), Flag::Placeholder(FlagToken::INPUT)];
    assert_eq!(fill_template(&template, &vec![(FlagToken::INPUT, "a.c")]), strings(&["<OUTPUT>", "a.c"]));
    assert_eq!(fill_template(&template, &Vec::new()), strings(&["<OUTPUT>", "<INPUT>"]));
    assert_eq!(fill_template(&Vec::new(), &vec![(FlagToken::INPUT, "a.c")]), Vec::<String>::new());
}

#[test]
fn a_path_that_spells_a_placeholder_is_not_filled_in_again() {
    let request = compile(CompileOption {
        language: "c".to_string(),
        input_path: "<OUTPUT>".to_string(),
        output_path: "<INPUT>".to_string(),
    })
    .unwrap();
    assert_eq!(
        request.args,
        strings(&["gcc", "<OUTPUT>", "-O2", "-Wall", "-lm", "-o", "<INPUT>"])
    );
}

#[test]
fn run_makes_a_confined_request() {
    let request = run(run_option("c")).unwrap();
    assert_eq!(
        request,
        ExecutionRequest {
            binary: "./main".to_string(),
            args: strings(&["./main"]),
            option: ExecuteOption {
                envs: Some(strings(&["PATH=/usr/bin", "LANG=C"])),
                limits: Some(ResourceLimit { memory: 262144000, time: 2 }),
                input_path: Some("1.in".to_string()),
                output_path: Some("1.out".to_string()),
                answer_path: Some("1.ans".to_string()),
                directory: Some(Directory {
                    working_dir: Some("/work".to_string()),
                    root_dir: Some("/sandbox".to_string()),
                }),
                use_syscall: true,
            },
        }
    );
    assert_eq!(run(run_option("cpp")), run(run_option("c")).map(|r| r));
}

#[test]
fn run_refuses_an_unknown_language() {
    assert_eq!(run(run_option("go")), None);
}

#[test]
fn run_hands_on_what_is_absent() {
    let mut option = run_option("cpp");
    option.input_path = None;
    option.output_path = None;
    option.answer_path = None;
    option.envs = Vec::new();
    option.directory = Directory { working_dir: None, root_dir: None };
    let request = run(option).unwrap();
    assert_eq!(request.option.input_path, None);
    assert_eq!(request.option.output_path, None);
    assert_eq!(request.option.answer_path, None);
    assert_eq!(request.option.envs, Some(Vec::new()));
    assert_eq!(request.option.directory, Some(Directory { working_dir: None, root_dir: None }));
    assert!(request.option.use_syscall);
}
