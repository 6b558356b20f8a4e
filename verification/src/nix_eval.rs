use vstd::prelude::*;
use crate::commands::EvalGoal;
use crate::text::{parent_of, path_ends_with, path_ends_with_components, path_parent};

verus! {

/// The flake that holds the hive, referred to by its directory.
pub open spec fn flake_ref(dir: Seq<char>) -> Seq<char> {
    "(builtins.getFlake \"git+file://"@ + dir + "\")"@
}

/// The hive, the NixOS configurations and nixpkgs that the evaluation is
/// handed: those of the flake in `flake_dir` where the hive is a flake, else
/// the hive file at `path` alone.
pub open spec fn hive_inputs(path: Seq<char>, flake_dir: Option<Seq<char>>) -> (Seq<char>, Seq<char>, Seq<char>) {
    match flake_dir {
        Some(dir) => (
            flake_ref(dir) + ".colmena"@,
            flake_ref(dir) + ".nixosConfigurations or {}"@,
            flake_ref(dir) + ".inputs.nixpkgs.outPath or null"@,
        ),
        None => ("import "@ + path, "{}"@, "null"@),
    }
}

/// The attribute of the evaluated hive that a goal asks for.
pub open spec fn goal_attribute(goal: EvalGoal) -> Seq<char> {
    match goal {
        EvalGoal::Inspect => "hive.inspect"@,
        EvalGoal::GetTopLevel(node) => "hive.getTopLevel \""@ + node.0@ + "\""@,
    }
}

/// The nix expression that evaluates the hive at `path` with the runtime in
/// `runtime`.
pub open spec fn eval_expression_text(
    runtime: Seq<char>,
    path: Seq<char>,
    flake_dir: Option<Seq<char>>,
    goal: EvalGoal,
) -> Seq<char> {
    let (hive, configurations, nixpkgs) = hive_inputs(path, flake_dir);
    "let evaluate = import "@ + runtime + "/evaluate.nix; hive = evaluate {hive = "@ + hive + "; path = "@ + path
        + "; nixosConfigurations = "@ + configurations + "; nixpkgs = "@ + nixpkgs + ";}; in "@ + goal_attribute(goal)
}

/// The nix expression for the hive at `path`, given the flake's directory
/// where the hive is a flake.
pub fn eval_expression_from(runtime: &str, path: &str, flake_dir: Option<&str>, goal: &EvalGoal) -> (res: String)
    ensures
        res@ == eval_expression_text(
            runtime@,
            path@,
            match flake_dir {
                Some(d) => Some(d@),
                None => None,
            },
            *goal,
        ),
{
    let mut hive = String::new();
    let mut configurations = String::new();
    let mut nixpkgs = String::new();
    match flake_dir {
        Some(dir) => {
            let mut flake = String::from_str("(builtins.getFlake \"git+file://");
            flake.append(dir);
            flake.append("\")");
            hive.append(flake.as_str());
            hive.append(".colmena");
            configurations.append(flake.as_str());
            configurations.append(".nixosConfigurations or {}");
            nixpkgs.append(flake.as_str());
            nixpkgs.append(".inputs.nixpkgs.outPath or null");
        },
        None => {
            hive.append("import ");
            hive.append(path);
            configurations.append("{}");
            nixpkgs.append("null");
        },
    }
    let mut s = String::from_str("let evaluate = import ");
    s.append(runtime);
    s.append("/evaluate.nix; hive = evaluate {hive = ");
    s.append(hive.as_str());
    s.append("; path = ");
    s.append(path);
    s.append("; nixosConfigurations = ");
    s.append(configurations.as_str());
    s.append("; nixpkgs = ");
    s.append(nixpkgs.as_str());
    s.append(";}; in ");
    match goal {
        EvalGoal::Inspect => s.append("hive.inspect"),
        EvalGoal::GetTopLevel(node) => {
            s.append("hive.getTopLevel \"");
            s.append(node.0.as_str());
            s.append("\"");
        },
    }
    s
}

/// Whether the hive at `path` is a flake: the path's last component is
/// `flake.nix`.
pub open spec fn is_flake_path(path: Seq<char>) -> bool {
    path_ends_with_components(path, "flake.nix"@)
}

/// The nix expression that evaluates the hive at the canonical `path`.
/// `None` where the hive is a flake whose path has no parent directory.
pub fn eval_expression(runtime: &str, path: &str, goal: &EvalGoal) -> (res: Option<String>)
    ensures
        res is None <==> is_flake_path(path@) && parent_of(path@) is None,
        res matches Some(e) ==> e@ == eval_expression_text(
            runtime@,
            path@,
            if is_flake_path(path@) { parent_of(path@) } else { None },
            *goal,
        ),
{
    if path_ends_with(path, "flake.nix") {
        match path_parent(path) {
            Some(dir) => Some(eval_expression_from(runtime, path, Some(dir.as_str()), goal)),
            None => None,
        }
    } else {
        Some(eval_expression_from(runtime, path, None, goal))
    }
}

/// The arguments of `nix` that evaluate `expression`.
pub open spec fn eval_arguments(expression: Seq<char>) -> Seq<Seq<char>> {
    seq![
        "--extra-experimental-features"@,
        "nix-command"@,
        "--extra-experimental-features"@,
        "flakes"@,
        "eval"@,
        "--json"@,
        "--impure"@,
        "--show-trace"@,
        "--expr"@,
        expression,
    ]
}

/// The arguments of `nix` that evaluate `expression`.
pub fn eval_command_arguments(expression: String) -> (res: Vec<String>)
    ensures
        res@.map_values(|a: String| a@) == eval_arguments(expression@),
{
    let mut res: Vec<String> = Vec::new();
    res.push(String::from_str("--extra-experimental-features"));
    res.push(String::from_str("nix-command"));
    res.push(String::from_str("--extra-experimental-features"));
    res.push(String::from_str("flakes"));
    res.push(String::from_str("eval"));
    res.push(String::from_str("--json"));
    res.push(String::from_str("--impure"));
    res.push(String::from_str("--show-trace"));
    res.push(String::from_str("--expr"));
    res.push(expression);
    res
}

} // verus!
