use vstd::prelude::*;
use crate::text::same_text;

verus! {

/// The delimiter used when none is configured.
pub open spec fn default_delimiter() -> Seq<char> {
    seq!['%', '%', '%']
}

/// The settings of a run.
pub struct Config {
    pub delimiter: String,
    pub file_path: String,
    pub hotkey_modifiers: Vec<String>,
    pub hotkey_key: String,
    pub paste: Option<bool>,
}

impl Default for Config {
    /// Delimiter `%%%`, file `input.txt`, hotkey CTRL+SHIFT+B, auto-paste on.
    fn default() -> (r: Config)
        ensures
            r.delimiter@ == default_delimiter(),
            r.file_path@ == seq!['i', 'n', 'p', 'u', 't', '.', 't', 'x', 't'],
            r.hotkey_modifiers@.len() == 2,
            r.hotkey_modifiers@[0]@ == seq!['C', 'T', 'R', 'L'],
            r.hotkey_modifiers@[1]@ == seq!['S', 'H', 'I', 'F', 'T'],
            r.hotkey_key@ == seq!['B'],
            r.paste == Some(true),
    {
        proof {
            reveal_strlit("%%%");
            reveal_strlit("input.txt");
            reveal_strlit("CTRL");
            reveal_strlit("SHIFT");
            reveal_strlit("B");
        }
        let mut hotkey_modifiers: Vec<String> = Vec::new();
        hotkey_modifiers.push(String::from_str("CTRL"));
        hotkey_modifiers.push(String::from_str("SHIFT"));
        let r = Config {
            delimiter: String::from_str("%%%"),
            file_path: String::from_str("input.txt"),
            hotkey_modifiers,
            hotkey_key: String::from_str("B"),
            paste: Some(true),
        };
        assert(r.delimiter@ =~= default_delimiter());
        assert(r.file_path@ =~= seq!['i', 'n', 'p', 'u', 't', '.', 't', 'x', 't']);
        assert(r.hotkey_modifiers@[0]@ =~= seq!['C', 'T', 'R', 'L']);
        assert(r.hotkey_modifiers@[1]@ =~= seq!['S', 'H', 'I', 'F', 'T']);
        assert(r.hotkey_key@ =~= seq!['B']);
        r
    }
}

impl Config {
    /// The settings with the command line applied: the input file always
    /// replaces the configured one, a delimiter other than `%%%` replaces the
    /// configured one, and auto-paste is on unless `no_paste`.
    pub fn with_overrides(self, file: String, delimiter: String, no_paste: bool) -> (r: Config)
        ensures
            r.file_path@ == file@,
            r.delimiter@ == (if delimiter@ == default_delimiter() {
                self.delimiter@
            } else {
                delimiter@
            }),
            r.paste == Some(!no_paste),
            r.hotkey_modifiers == self.hotkey_modifiers,
            r.hotkey_key == self.hotkey_key,
    {
        proof {
            reveal_strlit("%%%");
        }
        let is_default = same_text(delimiter.as_str(), "%%%");
        assert(is_default == (delimiter@ == default_delimiter())) by {
            assert("%%%"@ =~= default_delimiter());
        }
        let d = if is_default {
            self.delimiter
        } else {
            delimiter
        };
        Config {
            delimiter: d,
            file_path: file,
            hotkey_modifiers: self.hotkey_modifiers,
            hotkey_key: self.hotkey_key,
            paste: Some(!no_paste),
        }
    }

    /// Whether each segment is pasted after it is copied; on when unset.
    pub fn auto_paste(&self) -> (r: bool)
        ensures
            r == match self.paste {
                Some(b) => b,
                None => true,
            },
    {
        match self.paste {
            Some(b) => b,
            None => true,
        }
    }
}

} // verus!
