//! The command line: `--debug`, `--level <path>` (or `-l <path>`,
//! `--level=<path>`) and `--help` (or `-h`).

use vstd::prelude::*;

use crate::text::{same_text, starts_with_text, text_after};

verus! {

/// What the command line asks for.
#[derive(Clone, Debug)]
pub struct CliOptions {
    pub debug_enabled: bool,
    pub show_help: bool,
    pub level_path: Option<String>,
}

/// The options as plain values.
pub struct CliModel {
    pub debug_enabled: bool,
    pub show_help: bool,
    pub level_path: Option<Seq<char>>,
}

impl CliOptions {
    pub open spec fn model(self) -> CliModel {
        CliModel {
            debug_enabled: self.debug_enabled,
            show_help: self.show_help,
            level_path: match self.level_path {
                Some(p) => Some(p@),
                None => None,
            },
        }
    }
}

/// Reads the arguments from position `i` on, with the options read so far.
/// A later `--level` replaces an earlier one; the argument after `--level`
/// or `-l` is taken as the path whatever it is.
pub open spec fn parse_from(args: Seq<Seq<char>>, i: int, options: CliModel) -> Result<CliModel, Seq<char>>
    decreases args.len() - i,
{
    if i < 0 || i >= args.len() {
        Ok(options)
    } else {
        let argument = args[i];
        if argument == "--debug"@ {
            parse_from(args, i + 1, CliModel { debug_enabled: true, ..options })
        } else if argument == "--level"@ || argument == "-l"@ {
            if i + 1 < args.len() {
                parse_from(args, i + 2, CliModel { level_path: Some(args[i + 1]), ..options })
            } else {
                Err(argument + " 需要关卡 RON 路径"@)
            }
        } else if argument == "--help"@ || argument == "-h"@ {
            parse_from(args, i + 1, CliModel { show_help: true, ..options })
        } else if "--level="@.len() <= argument.len() && argument.subrange(0, "--level="@.len() as int)
            == "--level="@ {
            let path = argument.subrange("--level="@.len() as int, argument.len() as int);
            if path.len() > 0 {
                parse_from(args, i + 1, CliModel { level_path: Some(path), ..options })
            } else {
                Err("--level= 需要关卡 RON 路径"@)
            }
        } else {
            Err("未知参数: "@ + argument)
        }
    }
}

/// No option given.
pub open spec fn no_options() -> CliModel {
    CliModel { debug_enabled: false, show_help: false, level_path: None }
}

/// The arguments as plain values.
pub open spec fn args_view(args: Seq<String>) -> Seq<Seq<char>> {
    args.map_values(|a: String| a@)
}

/// Reads the command line's arguments (without the program's name).
pub fn parse_cli(args: &Vec<String>) -> (r: Result<CliOptions, String>)
    ensures
        match r {
            Ok(options) => parse_from(args_view(args@), 0, no_options())
                == Ok::<CliModel, Seq<char>>(options.model()),
            Err(e) => parse_from(args_view(args@), 0, no_options())
                == Err::<CliModel, Seq<char>>(e@),
        },
{
    proof {
        reveal_strlit("--level=");
    }
    let ghost all = args_view(args@);
    let mut options = CliOptions { debug_enabled: false, show_help: false, level_path: None };
    let mut i: usize = 0;
    while i < args.len()
        invariant
            all == args_view(args@),
            "--level="@.len() == 8,
            i <= args@.len(),
            parse_from(all, 0, no_options()) == parse_from(all, i as int, options.model()),
        decreases args@.len() - i,
    {
        let argument = args[i].as_str();
        assert(argument@ == all[i as int]);
        if same_text(argument, "--debug") {
            options.debug_enabled = true;
            i = i + 1;
        } else if same_text(argument, "--level") || same_text(argument, "-l") {
            if i + 1 < args.len() {
                options.level_path = Some(args[i + 1].clone());
                assert(all[i + 1] == args@[i + 1]@);
                i = i + 2;
            } else {
                let mut message = String::from_str(argument);
                message.append(" 需要关卡 RON 路径");
                return Err(message);
            }
        } else if same_text(argument, "--help") || same_text(argument, "-h") {
            options.show_help = true;
            i = i + 1;
        } else if starts_with_text(argument, "--level=") {
            let path = text_after(argument, 8);
            if path.as_str().unicode_len() > 0 {
                options.level_path = Some(path);
                i = i + 1;
            } else {
                return Err(String::from_str("--level= 需要关卡 RON 路径"));
            }
        } else {
            let mut message = String::from_str("未知参数: ");
            message.append(argument);
            return Err(message);
        }
    }
    Ok(options)
}

/// The help text.
pub fn cli_help() -> (r: &'static str)
    ensures
        r@ == "用法: bevy-pvz [--debug] [--level <path>]\n\n选项:\n  --debug              启动时显示 Rapier 碰撞体调试框\n  -l, --level <path>   指定关卡 RON 文件\n  -h, --help           显示帮助"@,
{
    "用法: bevy-pvz [--debug] [--level <path>]\n\n选项:\n  --debug              启动时显示 Rapier 碰撞体调试框\n  -l, --level <path>   指定关卡 RON 文件\n  -h, --help           显示帮助"
}

} // verus!
