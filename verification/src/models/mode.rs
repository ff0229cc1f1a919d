use crate::helpers::text::{ascii_lower, all_ascii, lowercase_of, to_lowercase};
use vstd::prelude::*;

verus! {

/// How the program runs: scanner or bot, live or backtest.
#[derive(Debug, Clone, Copy, PartialEq, Eq, Structural)]
pub enum ExecutionMode {
    Scanner,
    ScannerBackTest,
    BackTest,
    Bot,
    BotBackTest,
}

impl ExecutionMode {
    /// Whether a bot runs, live or in a backtest.
    pub fn is_bot(&self) -> (res: bool)
        ensures
            res == (*self is Bot || *self is BotBackTest),
    {
        match *self {
            ExecutionMode::Bot | ExecutionMode::BotBackTest => true,
            _ => false,
        }
    }

    /// Whether a plain backtest runs.
    pub fn is_back_test(&self) -> (res: bool)
        ensures
            res == (*self is BackTest),
    {
        match *self {
            ExecutionMode::BackTest => true,
            _ => false,
        }
    }
}

/// The execution mode named by an already lowercased name, if any.
pub open spec fn spec_mode_from_lower(name: Seq<char>) -> Option<ExecutionMode> {
    if name == "scanner"@ {
        Some(ExecutionMode::Scanner)
    } else if name == "backtest"@ {
        Some(ExecutionMode::BackTest)
    } else if name == "scannerbacktest"@ {
        Some(ExecutionMode::ScannerBackTest)
    } else if name == "bot"@ {
        Some(ExecutionMode::Bot)
    } else if name == "botbacktest"@ {
        Some(ExecutionMode::BotBackTest)
    } else {
        None
    }
}

fn mode_from_lower(name: &str) -> (res: Option<ExecutionMode>)
    ensures
        res == spec_mode_from_lower(name@),
{
    let t = name.to_owned();
    if t == "scanner".to_owned() {
        Some(ExecutionMode::Scanner)
    } else if t == "backtest".to_owned() {
        Some(ExecutionMode::BackTest)
    } else if t == "scannerbacktest".to_owned() {
        Some(ExecutionMode::ScannerBackTest)
    } else if t == "bot".to_owned() {
        Some(ExecutionMode::Bot)
    } else if t == "botbacktest".to_owned() {
        Some(ExecutionMode::BotBackTest)
    } else {
        None
    }
}

/// Reads an execution mode from its name in any letter case (`scanner`, `backtest`,
/// `scannerbacktest`, `bot` or `botbacktest`); other names are not accepted.
pub fn from_str(execution_mode: &str) -> (res: ExecutionMode)
    requires
        spec_mode_from_lower(lowercase_of(execution_mode@)) is Some,
    ensures
        Some(res) == spec_mode_from_lower(lowercase_of(execution_mode@)),
        all_ascii(execution_mode@) ==> Some(res) == spec_mode_from_lower(ascii_lower(execution_mode@)),
{
    let lower = to_lowercase(execution_mode);
    match mode_from_lower(lower.as_str()) {
        Some(m) => m,
        None => ExecutionMode::Scanner,
    }
}

/// Reads an execution mode from its name in any letter case, or `None` when the name is
/// not one of the five modes.
pub fn try_from_str(execution_mode: &str) -> (res: Option<ExecutionMode>)
    ensures
        res == spec_mode_from_lower(lowercase_of(execution_mode@)),
{
    let lower = to_lowercase(execution_mode);
    if mode_from_lower(lower.as_str()).is_some() {
        Some(from_str(execution_mode))
    } else {
        None
    }
}

/// The variant names of the execution modes read back as the same modes.
pub proof fn lemma_mode_name_round_trip(m: ExecutionMode)
    ensures
        spec_mode_from_lower(ascii_lower(
            match m {
                ExecutionMode::Scanner => "Scanner"@,
                ExecutionMode::ScannerBackTest => "ScannerBackTest"@,
                ExecutionMode::BackTest => "BackTest"@,
                ExecutionMode::Bot => "Bot"@,
                ExecutionMode::BotBackTest => "BotBackTest"@,
            },
        )) == Some(m),
{
    reveal_strlit("Scanner");
    reveal_strlit("BackTest");
    reveal_strlit("ScannerBackTest");
    reveal_strlit("Bot");
    reveal_strlit("BotBackTest");
    reveal_strlit("scanner");
    reveal_strlit("backtest");
    reveal_strlit("scannerbacktest");
    reveal_strlit("bot");
    reveal_strlit("botbacktest");
    assert("backtest"@.len() != "scanner"@.len());
    assert("scannerbacktest"@.len() != "scanner"@.len());
    assert("scannerbacktest"@.len() != "backtest"@.len());
    assert("bot"@.len() != "scanner"@.len());
    assert("bot"@.len() != "backtest"@.len());
    assert("bot"@.len() != "scannerbacktest"@.len());
    assert("botbacktest"@.len() != "scanner"@.len());
    assert("botbacktest"@.len() != "backtest"@.len());
    assert("botbacktest"@.len() != "scannerbacktest"@.len());
    assert("botbacktest"@.len() != "bot"@.len());
    assert(ascii_lower("Scanner"@) =~= "scanner"@);
    assert(ascii_lower("BackTest"@) =~= "backtest"@);
    assert(ascii_lower("ScannerBackTest"@) =~= "scannerbacktest"@);
    assert(ascii_lower("Bot"@) =~= "bot"@);
    assert(ascii_lower("BotBackTest"@) =~= "botbacktest"@);
}

} // verus!
