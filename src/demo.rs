//! The demonstration flow: build a configuration, a status, a score table and
//! a list of numbers, and produce the lines that the program prints.
use vstd::prelude::*;

use crate::config::Config;
use crate::decimal::push_int;
use crate::max_finder::find_max;
use crate::scores::ScoreMap;
use crate::status::Status;

verus! {

/// The lowest score that counts as high.
pub const HIGH_SCORE: i32 = 90;

/// The lines of the demonstration, in the order they are printed:
/// the configuration, the status, and the largest number.
pub fn demo_lines() -> (r: Vec<String>)
    ensures
        r@.map_values(|l: String| l@) == seq![
            "Config: ultra v1"@,
            "Pending: Awaiting review"@,
            "Max: 5"@,
        ],
{
    let mut lines: Vec<String> = Vec::new();

    let config = Config::new("ultra").with_debug(true);
    let mut config_line = String::from_str("Config: ");
    let rendered = config.render();
    config_line.append(rendered.as_str());
    proof {
        reveal_strlit("ultra");
        reveal_strlit("Config: ");
        reveal_strlit("Config: ultra v1");
        assert(config_line@ =~= "Config: ultra v1"@);
    }
    lines.push(config_line);

    let status = Status::Pending { reason: String::from_str("Awaiting review") };
    let status_line = status.line();
    proof {
        reveal_strlit("Pending: ");
        reveal_strlit("Awaiting review");
        reveal_strlit("Pending: Awaiting review");
        assert(status_line@ =~= "Pending: Awaiting review"@);
    }
    lines.push(status_line);

    let mut scores = ScoreMap::new();
    scores.insert("Alice", 100);
    scores.insert("Bob", 85);
    let _high_scores = scores.high_scores(HIGH_SCORE);

    let numbers: Vec<i32> = vec![1, 2, 3, 4, 5];
    let found = find_max(numbers.as_slice());
    proof {
        assert(numbers@ =~= seq![1i32, 2, 3, 4, 5]);
        assert(numbers@[4] == 5);
    }
    if let Some(max) = found {
        let mut max_line = String::from_str("Max: ");
        push_int(&mut max_line, max as i64);
        proof {
            assert(numbers@[4] <= max);
            reveal_strlit("Max: ");
            reveal_strlit("Max: 5");
            assert(max_line@ =~= "Max: 5"@);
        }
        lines.push(max_line);
    }
    proof {
        assert(lines@.map_values(|l: String| l@) =~= seq![
            "Config: ultra v1"@,
            "Pending: Awaiting review"@,
            "Max: 5"@,
        ]);
    }
    lines
}

} // verus!
