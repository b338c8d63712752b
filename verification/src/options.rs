//! Start-up options and the eligibility of devices under them.

use vstd::prelude::*;
use regex::Regex;
use crate::lsblk::{BlockDevice, DeviceIdentity};

verus! {

/// `regex::Regex`: a compiled regular expression.
#[verifier::external_type_specification]
#[verifier::external_body]
pub struct ExRegex(regex::Regex);

/// `regex::Error`: why a pattern did not compile. Carried, never inspected.
#[verifier::external_type_specification]
#[verifier::external_body]
pub struct ExRegexError(regex::Error);

/// Whether a compiled expression matches anywhere in a text, as
/// `Regex::is_match` decides it.
pub uninterp spec fn regex_matches(regex: regex::Regex, text: Seq<char>) -> bool;

/// The pattern that an expression was compiled from, as `Regex::as_str`
/// gives it back.
pub uninterp spec fn regex_pattern(regex: regex::Regex) -> Seq<char>;

/// Whether `Regex::new` accepts a pattern: its syntax is valid and the
/// compiled expression stays within the size that the regex crate allows.
pub uninterp spec fn pattern_compiles(pattern: Seq<char>) -> bool;

/// `Regex::new`: succeeds or fails by the pattern alone, and on success gives
/// an expression that remembers the pattern it was compiled from.
#[verifier::external_body]
fn compile(pattern: &str) -> (outcome: Result<Regex, regex::Error>)
    ensures
        outcome is Ok <==> pattern_compiles(pattern@),
        outcome matches Ok(regex) ==> regex_pattern(regex) == pattern@,
{
    Regex::new(pattern)
}

/// `Regex::is_match`: whether the expression matches anywhere in the text.
#[verifier::external_body]
fn is_match(regex: &Regex, text: &str) -> (hit: bool)
    ensures
        hit == regex_matches(*regex, text@),
{
    regex.is_match(text)
}

/// An exclusion pattern that is not a valid regular expression.
#[derive(Debug)]
pub struct InvalidExcludeRegex {
    /// Position of the pattern among those given.
    pub position: usize,
    pub pattern: String,
    pub cause: regex::Error,
}

/// What the process was started with. Read-only once built.
#[derive(Debug, Clone)]
pub struct Options {
    pub verbose: bool,
    pub prepend_sudo: bool,
    pub exclude_regexes: Vec<Regex>,
}

/// Whether some exclusion expression matches the raw device name.
pub open spec fn excluded(name: Seq<char>, exclude: Seq<Regex>) -> bool {
    exists|i: int| 0 <= i < exclude.len() && regex_matches(#[trigger] exclude[i], name)
}

/// A device is eligible for diagnostics when it is a disk and no exclusion
/// expression matches its name.
pub open spec fn eligible(device: DeviceIdentity, exclude: Seq<Regex>) -> bool {
    device.is_disk() && !excluded(device.name, exclude)
}

/// The patterns that a list of expressions was compiled from.
pub open spec fn patterns_of(exclude: Seq<Regex>) -> Seq<Seq<char>> {
    Seq::new(exclude.len(), |i: int| regex_pattern(exclude[i]))
}

/// The characters of each text in a list.
pub open spec fn texts_of(list: Seq<String>) -> Seq<Seq<char>> {
    Seq::new(list.len(), |i: int| list[i]@)
}

/// Whether every pattern of a list compiles.
pub open spec fn all_compile(patterns: Seq<String>) -> bool {
    forall|i: int| 0 <= i < patterns.len() ==> pattern_compiles(#[trigger] patterns[i]@)
}

/// Whether the pattern at `position` is the first of a list that does not
/// compile.
pub open spec fn is_first_invalid(patterns: Seq<String>, position: int) -> bool {
    &&& 0 <= position < patterns.len()
    &&& !pattern_compiles(patterns[position]@)
    &&& forall|j: int| 0 <= j < position ==> pattern_compiles(#[trigger] patterns[j]@)
}

/// The devices behind a list of references.
pub open spec fn devices_of(list: Seq<&BlockDevice>) -> Seq<BlockDevice> {
    Seq::new(list.len(), |i: int| *list[i])
}

/// The eligible devices of a list, in the order of the list.
pub open spec fn eligible_among(devices: Seq<BlockDevice>, exclude: Seq<Regex>) -> Seq<BlockDevice> {
    devices.filter(|device: BlockDevice| eligible(device@, exclude))
}

/// Only a disk is eligible, and never one whose name an exclusion expression
/// matches; where no expression is configured, every disk is eligible.
pub proof fn lemma_eligibility(device: DeviceIdentity, exclude: Seq<Regex>)
    ensures
        !device.is_disk() ==> !eligible(device, exclude),
        forall|i: int|
            0 <= i < exclude.len() && regex_matches(#[trigger] exclude[i], device.name) ==> !eligible(
                device,
                exclude,
            ),
        exclude.len() == 0 ==> eligible(device, exclude) == device.is_disk(),
{
}

/// The eligible devices of a list are devices of that list, each of them
/// eligible, and no more of them than the list holds.
pub proof fn lemma_eligible_among(devices: Seq<BlockDevice>, exclude: Seq<Regex>)
    ensures
        eligible_among(devices, exclude).len() <= devices.len(),
        forall|i: int|
            0 <= i < eligible_among(devices, exclude).len() ==> {
                &&& eligible((#[trigger] eligible_among(devices, exclude)[i])@, exclude)
                &&& devices.contains(eligible_among(devices, exclude)[i])
            },
        forall|i: int|
            0 <= i < devices.len() && eligible(devices[i]@, exclude) ==> eligible_among(devices, exclude).contains(
                #[trigger] devices[i],
            ),
{
    let wanted = |device: BlockDevice| eligible(device@, exclude);
    devices.lemma_filter_len(wanted);
    assert forall|i: int| 0 <= i < devices.filter(wanted).len() implies {
        &&& eligible((#[trigger] devices.filter(wanted)[i])@, exclude)
        &&& devices.contains(devices.filter(wanted)[i])
    } by {
        devices.lemma_filter_pred(wanted, i);
        devices.lemma_filter_contains_rev(wanted, devices.filter(wanted)[i]);
    }
    assert forall|i: int| 0 <= i < devices.len() && eligible(devices[i]@, exclude) implies devices.filter(
        wanted,
    ).contains(#[trigger] devices[i]) by {
        devices.lemma_filter_contains(wanted, i);
    }
}

impl Options {
    /// Takes in the outcome of compiling the exclusion pattern at `position`:
    /// a compiled expression joins the exclusion list, a failure is reported
    /// with its position and pattern and leaves the options as they were.
    pub fn take_in(&mut self, position: usize, pattern: &str, outcome: Result<Regex, regex::Error>) -> (refused:
        Result<(), InvalidExcludeRegex>)
        ensures
            final(self).verbose == old(self).verbose,
            final(self).prepend_sudo == old(self).prepend_sudo,
            match outcome {
                Ok(regex) => {
                    &&& refused is Ok
                    &&& final(self).exclude_regexes@ == old(self).exclude_regexes@.push(regex)
                },
                Err(cause) => {
                    &&& refused matches Err(error)
                    &&& error.position == position
                    &&& error.pattern@ == pattern@
                    &&& error.cause == cause
                    &&& final(self).exclude_regexes@ == old(self).exclude_regexes@
                },
            },
    {
        match outcome {
            Ok(regex) => {
                self.exclude_regexes.push(regex);
                Ok(())
            },
            Err(cause) => Err(InvalidExcludeRegex { position, pattern: pattern.to_owned(), cause }),
        }
    }

    /// Builds the options from the values of the command line. The attempt
    /// succeeds exactly when every exclusion pattern compiles, and then keeps
    /// the flags and holds one expression for each pattern, in the order
    /// given. Otherwise the first pattern that does not compile is reported.
    pub fn from_claps(verbose: bool, prepend_sudo: bool, exclude_regexes: &Vec<String>) -> (built: Result<
        Options,
        InvalidExcludeRegex,
    >)
        ensures
            built is Ok <==> all_compile(exclude_regexes@),
            match built {
                Ok(options) => {
                    &&& options.verbose == verbose
                    &&& options.prepend_sudo == prepend_sudo
                    &&& patterns_of(options.exclude_regexes@) == texts_of(exclude_regexes@)
                },
                Err(error) => {
                    &&& is_first_invalid(exclude_regexes@, error.position as int)
                    &&& error.pattern@ == exclude_regexes[error.position as int]@
                },
            },
    {
        let mut options = Options { verbose, prepend_sudo, exclude_regexes: Vec::new() };
        let mut at: usize = 0;
        while at < exclude_regexes.len()
            invariant
                at <= exclude_regexes.len(),
                options.verbose == verbose,
                options.prepend_sudo == prepend_sudo,
                patterns_of(options.exclude_regexes@) == texts_of(exclude_regexes@.subrange(0, at as int)),
                forall|j: int| 0 <= j < at ==> pattern_compiles(#[trigger] exclude_regexes@[j]@),
            decreases exclude_regexes.len() - at,
        {
            let pattern = exclude_regexes[at].as_str();
            let outcome = compile(pattern);
            let ghost before = options.exclude_regexes@;
            match options.take_in(at, pattern, outcome) {
                Ok(()) => {},
                Err(error) => { return Err(error); },
            }
            proof {
                let head = exclude_regexes@.subrange(0, at as int);
                let longer = exclude_regexes@.subrange(0, at as int + 1);
                assert(patterns_of(before).len() == texts_of(head).len());
                assert forall|i: int| 0 <= i < at + 1 implies patterns_of(options.exclude_regexes@)[i]
                    == texts_of(longer)[i] by {
                    if i < at {
                        assert(patterns_of(before)[i] == texts_of(head)[i]);
                    }
                }
                assert(patterns_of(options.exclude_regexes@) =~= texts_of(longer));
            }
            at += 1;
        }
        proof {
            assert(exclude_regexes@.subrange(0, at as int) =~= exclude_regexes@);
        }
        Ok(options)
    }

    /// Whether some exclusion expression matches the raw device name.
    pub fn excludes(&self, name: &str) -> (hit: bool)
        ensures
            hit == excluded(name@, self.exclude_regexes@),
    {
        let mut at: usize = 0;
        while at < self.exclude_regexes.len()
            invariant
                at <= self.exclude_regexes.len(),
                forall|i: int| 0 <= i < at ==> !regex_matches(#[trigger] self.exclude_regexes@[i], name@),
            decreases self.exclude_regexes.len() - at,
        {
            if is_match(&self.exclude_regexes[at], name) {
                return true;
            }
            at += 1;
        }
        false
    }

    /// Whether diagnostics are to be asked of a device: it is a disk, and no
    /// exclusion expression matches its name.
    pub fn is_eligible(&self, device: &BlockDevice) -> (ok: bool)
        ensures
            ok == eligible(device@, self.exclude_regexes@),
    {
        device.is_disk() && !self.excludes(device.name.as_str())
    }

    /// The devices of a list of which diagnostics are to be asked, in the
    /// order of the list.
    pub fn eligible_devices<'a>(&self, devices: &'a Vec<BlockDevice>) -> (kept: Vec<&'a BlockDevice>)
        ensures
            devices_of(kept@) == eligible_among(devices@, self.exclude_regexes@),
    {
        let ghost wanted = |device: BlockDevice| eligible(device@, self.exclude_regexes@);
        let mut kept: Vec<&'a BlockDevice> = Vec::new();
        let mut at: usize = 0;
        proof {
            reveal(Seq::filter);
            assert(devices@.subrange(0, 0).filter(wanted) =~= devices_of(kept@));
        }
        while at < devices.len()
            invariant
                at <= devices.len(),
                wanted == |device: BlockDevice| eligible(device@, self.exclude_regexes@),
                devices_of(kept@) == devices@.subrange(0, at as int).filter(wanted),
            decreases devices.len() - at,
        {
            let device = &devices[at];
            let ghost before = devices_of(kept@);
            proof {
                reveal(Seq::filter);
                let head = devices@.subrange(0, at as int + 1);
                assert(head.drop_last() =~= devices@.subrange(0, at as int));
                assert(head.last() == devices@[at as int]);
            }
            if self.is_eligible(device) {
                kept.push(device);
                proof {
                    assert(devices_of(kept@) =~= before.push(*device));
                }
            }
            at += 1;
        }
        proof {
            assert(devices@.subrange(0, at as int) =~= devices@);
        }
        kept
    }
}

} // verus!
