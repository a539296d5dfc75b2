//! Command-line argument handling.
//!
//! The scan walks the whole argument vector, including the program name,
//! and takes the value after each `--image` or `--output` flag; a later
//! occurrence of a flag overrides an earlier one, and any other argument
//! is ignored.  A flag standing last, with no value after it, stops the
//! scan at once: the program then prints a message and exits successfully
//! without doing any work, so a usage error deliberately does not produce
//! a failing exit code.

use vstd::prelude::*;

verus! {

/// What a scan of the argument vector decides.
#[derive(Clone, Debug)]
pub enum CliOutcome {
    /// Run the pipeline with these paths.
    Run {
        /// Path of the input image.
        image_path: String,
        /// Path of the output waveform.
        output_path: String,
    },
    /// `--image` was the last argument, with no value after it.
    InvalidImageArg,
    /// `--output` was the last argument, with no value after it.
    InvalidOutputArg,
}

/// The mathematical counterpart of [`CliOutcome`], over character
/// sequences.
pub enum ArgScan {
    /// Run the pipeline with these paths.
    Run {
        /// Path of the input image.
        image: Seq<char>,
        /// Path of the output waveform.
        output: Seq<char>,
    },
    /// `--image` stood last, with no value after it.
    InvalidImage,
    /// `--output` stood last, with no value after it.
    InvalidOutput,
}

/// The flag that names the input image.
pub open spec fn image_flag() -> Seq<char> {
    "--image"@
}

/// The flag that names the output waveform.
pub open spec fn output_flag() -> Seq<char> {
    "--output"@
}

/// The image path used when no `--image` flag is given.
pub open spec fn default_image_path() -> Seq<char> {
    "image.png"@
}

/// The output path used when no `--output` flag is given.
pub open spec fn default_output_path() -> Seq<char> {
    "audio.wav"@
}

/// One pass over the argument vector from position `i` on, carrying the
/// paths chosen so far.  At each position, each of the two flags in turn
/// either takes the following argument as its new value or, standing
/// last, stops the scan.
pub open spec fn scan_args(
    args: Seq<Seq<char>>,
    i: int,
    image: Seq<char>,
    output: Seq<char>,
) -> ArgScan
    decreases args.len() - i,
{
    if i < 0 || i >= args.len() {
        ArgScan::Run { image, output }
    } else {
        let a = args[i];
        if a == image_flag() && i + 1 >= args.len() {
            ArgScan::InvalidImage
        } else {
            let image2 = if a == image_flag() {
                args[i + 1]
            } else {
                image
            };
            if a == output_flag() && i + 1 >= args.len() {
                ArgScan::InvalidOutput
            } else {
                let output2 = if a == output_flag() {
                    args[i + 1]
                } else {
                    output
                };
                scan_args(args, i + 1, image2, output2)
            }
        }
    }
}

/// What scanning the whole argument vector decides, starting from the
/// default paths.
pub open spec fn parse_model(args: Seq<Seq<char>>) -> ArgScan {
    scan_args(args, 0, default_image_path(), default_output_path())
}

/// The outcome `r` says the same thing as the model `m`.
pub open spec fn outcome_matches(r: CliOutcome, m: ArgScan) -> bool {
    match r {
        CliOutcome::Run { image_path, output_path } => m == (ArgScan::Run {
            image: image_path@,
            output: output_path@,
        }),
        CliOutcome::InvalidImageArg => m == ArgScan::InvalidImage,
        CliOutcome::InvalidOutputArg => m == ArgScan::InvalidOutput,
    }
}

/// Scans the argument vector and decides what the program should do.
pub fn parse_args(args: &Vec<String>) -> (r: CliOutcome)
    ensures
        outcome_matches(r, parse_model(args@.map_values(|s: String| s@))),
{
    let ghost gargs: Seq<Seq<char>> = args@.map_values(|s: String| s@);
    let mut image_path: String = "image.png".to_owned();
    let mut output_path: String = "audio.wav".to_owned();
    let flag_image: String = "--image".to_owned();
    let flag_output: String = "--output".to_owned();
    let mut i: usize = 0;
    while i < args.len()
        invariant
            i <= args@.len(),
            gargs == args@.map_values(|s: String| s@),
            flag_image@ == image_flag(),
            flag_output@ == output_flag(),
            parse_model(gargs) == scan_args(gargs, i as int, image_path@, output_path@),
        decreases args@.len() - i,
    {
        proof {
            assert(gargs[i as int] == args@[i as int]@);
        }
        let a: &String = &args[i];
        if *a == flag_image {
            if i + 1 < args.len() {
                image_path = args[i + 1].clone();
            } else {
                return CliOutcome::InvalidImageArg;
            }
        }
        if *a == flag_output {
            if i + 1 < args.len() {
                output_path = args[i + 1].clone();
            } else {
                return CliOutcome::InvalidOutputArg;
            }
        }
        i = i + 1;
    }
    CliOutcome::Run { image_path, output_path }
}

} // verus!
