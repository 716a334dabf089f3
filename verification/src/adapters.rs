//! Tool adapters: each adapter turns one operation into the exact
//! argument list of one external executable, or refuses immediately when
//! the tool is administratively disabled.  The spawn itself happens
//! outside the library; `interpret_outcome` and `verify_output` decide
//! what a run's observable result means for the job.

use vstd::prelude::*;
use vstd::string::StringExecFns;
use crate::config::ToolConfig;
use crate::errors::PdfEngineError;
use crate::text::{dec_of, dec_int_of, joined_dec, u32_to_string, i32_to_string, join_pages, push_string, extend_strings};

verus! {

/// A planned invocation of one external tool.
#[derive(Debug)]
pub struct ToolInvocation {
    pub tool: String,
    pub executable: String,
    pub args: Vec<String>,
    pub timeout_secs: u64,
}

/// The observable end of an external-tool run, as the surrounding
/// process reports it back to the engine.
#[derive(Debug)]
pub enum ToolOutcome {
    /// The process ran and exited successfully.
    Completed,
    /// The process could not be spawned or awaited; the message is the
    /// operating system's.
    SpawnFailed(String),
    /// The configured timeout elapsed before the process finished.
    TimedOut,
    /// The process exited with a failure status; the payload is its
    /// captured standard-error text.
    ExitFailure(String),
}

/// Maps the observable end of a run onto the engine's error model: a
/// timeout, an I/O failure, or the tool's own failure text prefixed
/// with the tool's name.
pub fn interpret_outcome(tool: &str, outcome: ToolOutcome) -> (r: Result<(), PdfEngineError>)
    ensures
        outcome matches ToolOutcome::Completed ==> r is Ok,
        outcome matches ToolOutcome::SpawnFailed(m) ==> (r matches Err(e)
            && e matches PdfEngineError::Io(m2) && m2@ == m@),
        outcome matches ToolOutcome::TimedOut ==> (r matches Err(e) && e is Timeout),
        outcome matches ToolOutcome::ExitFailure(stderr) ==> (r matches Err(e)
            && e matches PdfEngineError::ToolFailed(m2) && m2@ == tool@ + ": "@ + stderr@),
{
    match outcome {
        ToolOutcome::Completed => Ok(()),
        ToolOutcome::SpawnFailed(m) => Err(PdfEngineError::Io(m)),
        ToolOutcome::TimedOut => Err(PdfEngineError::Timeout),
        ToolOutcome::ExitFailure(stderr) => {
            let msg = tool.to_owned().concat(": ").concat(stderr.as_str());
            Err(PdfEngineError::ToolFailed(msg))
        },
    }
}

/// Judges a produced output file by its reported size: a missing file
/// surfaces the I/O failure, an empty file is treated as tool failure
/// even if the tool reported success.
pub fn verify_output(size: Result<u64, String>) -> (r: Result<(), PdfEngineError>)
    ensures
        r is Ok <==> (size matches Ok(n) && n > 0),
        size matches Ok(n) && n == 0 ==> (r matches Err(e)
            && e matches PdfEngineError::ToolFailed(m) && m@ == "output empty"@),
        size matches Err(m) ==> (r matches Err(e)
            && e matches PdfEngineError::Io(m2) && m2@ == m@),
{
    match size {
        Ok(n) => {
            if n == 0 {
                Err(PdfEngineError::ToolFailed(String::from_str("output empty")))
            } else {
                Ok(())
            }
        },
        Err(m) => Err(PdfEngineError::Io(m)),
    }
}

/// The argument list of a merge: the output first, then the inputs in
/// caller order.
pub open spec fn merge_args(output: Seq<char>, inputs: Seq<Seq<char>>) -> Seq<Seq<char>> {
    seq!["merge"@, "--"@, output] + inputs
}

/// The argument list of a span split.
pub open spec fn split_span_args(input: Seq<char>, output_dir: Seq<char>, span: u32) -> Seq<Seq<char>> {
    seq!["split"@, "-m"@, "span"@, "--"@, input, output_dir, dec_of(span as nat)]
}

/// The argument list of a page split.
pub open spec fn split_pages_args(input: Seq<char>, output_dir: Seq<char>, pages: Seq<u32>) -> Seq<Seq<char>> {
    seq!["split"@, "-m"@, "page"@, "--"@, input, output_dir]
        + pages.map_values(|p: u32| dec_of(p as nat))
}

/// The argument list of a rotation; a page selection, when present,
/// stands before the separator.
pub open spec fn rotate_args(input: Seq<char>, output: Seq<char>, degrees: i32, pages: Option<Seq<char>>) -> Seq<Seq<char>> {
    match pages {
        Option::Some(p) => seq!["rotate"@, dec_int_of(degrees as int), "-p"@, p, "--"@, input, output],
        Option::None => seq!["rotate"@, dec_int_of(degrees as int), "--"@, input, output],
    }
}

/// The argument list of a page extraction; an empty selection defaults
/// to the first page.
pub open spec fn extract_args(input: Seq<char>, output: Seq<char>, pages: Seq<u32>) -> Seq<Seq<char>> {
    let selection = if pages.len() == 0 { "1"@ } else { joined_dec(pages) };
    seq!["extract"@, "-p"@, selection, "--"@, input, output]
}

/// The argument list of an encryption; the user password is optional.
pub open spec fn encrypt_args(input: Seq<char>, output: Seq<char>, owner: Seq<char>, user: Option<Seq<char>>) -> Seq<Seq<char>> {
    match user {
        Option::Some(u) => seq!["encrypt"@, "-opw"@, owner, "-upw"@, u, "--"@, input, output],
        Option::None => seq!["encrypt"@, "-opw"@, owner, "--"@, input, output],
    }
}

/// The argument list of a decryption.
pub open spec fn decrypt_args(input: Seq<char>, output: Seq<char>, password: Seq<char>) -> Seq<Seq<char>> {
    seq!["decrypt"@, "-upw"@, password, "--"@, input, output]
}

/// The argument list of a metadata dump.
pub open spec fn get_metadata_args(input: Seq<char>, output: Seq<char>) -> Seq<Seq<char>> {
    seq!["info"@, "-json"@, "--"@, input, output]
}

/// The argument list of a metadata write: one `-key=value` entry per
/// property to set.
pub open spec fn set_metadata_args(input: Seq<char>, output: Seq<char>, entries: Seq<Seq<char>>) -> Seq<Seq<char>> {
    seq!["properties"@] + entries + seq!["--"@, input, output]
}

/// The argument list of a compression through the PostScript engine.
pub open spec fn compress_args(input: Seq<char>, output: Seq<char>, preset: Seq<char>) -> Seq<Seq<char>> {
    seq![
        "-sDEVICE=pdfwrite"@,
        "-dPDFSETTINGS=/"@ + preset,
        "-dNOPAUSE"@,
        "-dBATCH"@,
        "-dSAFER"@,
        "-sOutputFile="@ + output,
        input,
    ]
}

/// The argument list of a page reorder.
pub open spec fn reorder_args(input: Seq<char>, output: Seq<char>, pages: Seq<char>) -> Seq<Seq<char>> {
    seq![input, "--pages"@, "."@, pages, "--"@, output]
}

/// What every adapter method promises: the enable flag decides
/// success, and a granted invocation carries the adapter's tool,
/// executable and timeout.
pub open spec fn invocation_granted(config: ToolConfig, tool: Seq<char>, r: Result<ToolInvocation, PdfEngineError>, args: Seq<Seq<char>>) -> bool {
    &&& r is Ok <==> config.enabled
    &&& (r matches Ok(inv) ==> {
        &&& inv.tool@ == tool
        &&& inv.executable@ == config.executable@
        &&& inv.timeout_secs == config.timeout_secs
        &&& inv.args.deep_view() == args
    })
    &&& (r matches Err(e) ==> e matches PdfEngineError::ToolUnavailable(m)
        && m@ == tool + " disabled"@)
}

fn gate(config: &ToolConfig, tool: &str) -> (r: Result<(), PdfEngineError>)
    ensures
        r is Ok <==> config.enabled,
        r matches Err(e) ==> e matches PdfEngineError::ToolUnavailable(m)
            && m@ == tool@ + " disabled"@,
{
    if config.enabled {
        Ok(())
    } else {
        Err(PdfEngineError::ToolUnavailable(tool.to_owned().concat(" disabled")))
    }
}

/// The adapter around the multi-operation PDF command-line tool.
#[derive(Debug)]
pub struct PdfCpuAdapter {
    pub config: ToolConfig,
}

impl Clone for PdfCpuAdapter {
    fn clone(&self) -> (r: Self)
        ensures
            r.config.enabled == self.config.enabled,
            r.config.executable@ == self.config.executable@,
            r.config.timeout_secs == self.config.timeout_secs,
    {
        PdfCpuAdapter { config: self.config.clone() }
    }
}

impl PdfCpuAdapter {
    fn invocation(&self, args: Vec<String>) -> (r: ToolInvocation)
        ensures
            r.tool@ == "pdfcpu"@,
            r.executable@ == self.config.executable@,
            r.timeout_secs == self.config.timeout_secs,
            r.args.deep_view() == args.deep_view(),
    {
        ToolInvocation {
            tool: String::from_str("pdfcpu"),
            executable: self.config.executable.clone(),
            args,
            timeout_secs: self.config.timeout_secs,
        }
    }

    /// Plans a merge of the inputs, in order, into the output.
    pub fn merge(&self, output: &str, inputs: &Vec<String>) -> (r: Result<ToolInvocation, PdfEngineError>)
        ensures
            invocation_granted(self.config, "pdfcpu"@, r, merge_args(output@, inputs.deep_view())),
    {
        gate(&self.config, "pdfcpu")?;
        let mut args: Vec<String> = Vec::new();
        push_string(&mut args, String::from_str("merge"));
        push_string(&mut args, String::from_str("--"));
        push_string(&mut args, output.to_owned());
        proof {
            assert(args.deep_view() =~= seq!["merge"@, "--"@, output@]);
        }
        extend_strings(&mut args, inputs);
        Ok(self.invocation(args))
    }

    /// Plans a split into spans of the given page count.
    pub fn split_span(&self, input: &str, output_dir: &str, span: u32) -> (r: Result<ToolInvocation, PdfEngineError>)
        ensures
            invocation_granted(self.config, "pdfcpu"@, r, split_span_args(input@, output_dir@, span)),
    {
        gate(&self.config, "pdfcpu")?;
        let mut args: Vec<String> = Vec::new();
        push_string(&mut args, String::from_str("split"));
        push_string(&mut args, String::from_str("-m"));
        push_string(&mut args, String::from_str("span"));
        push_string(&mut args, String::from_str("--"));
        push_string(&mut args, input.to_owned());
        push_string(&mut args, output_dir.to_owned());
        push_string(&mut args, u32_to_string(span));
        proof {
            assert(args.deep_view() =~= split_span_args(input@, output_dir@, span));
        }
        Ok(self.invocation(args))
    }

    /// Plans a split at the given page boundaries.
    pub fn split_pages(&self, input: &str, output_dir: &str, pages: &Vec<u32>) -> (r: Result<ToolInvocation, PdfEngineError>)
        ensures
            invocation_granted(self.config, "pdfcpu"@, r, split_pages_args(input@, output_dir@, pages@)),
    {
        gate(&self.config, "pdfcpu")?;
        let mut args: Vec<String> = Vec::new();
        push_string(&mut args, String::from_str("split"));
        push_string(&mut args, String::from_str("-m"));
        push_string(&mut args, String::from_str("page"));
        push_string(&mut args, String::from_str("--"));
        push_string(&mut args, input.to_owned());
        push_string(&mut args, output_dir.to_owned());
        let ghost base = args.deep_view();
        proof {
            assert(base =~= seq!["split"@, "-m"@, "page"@, "--"@, input@, output_dir@]);
        }
        let mut i: usize = 0;
        while i < pages.len()
            invariant
                i <= pages@.len(),
                args.deep_view() == base + pages@.subrange(0, i as int).map_values(|p: u32| dec_of(p as nat)),
            decreases pages@.len() - i,
        {
            push_string(&mut args, u32_to_string(pages[i]));
            proof {
                assert(base + pages@.subrange(0, i + 1 as int).map_values(|p: u32| dec_of(p as nat))
                    =~= (base + pages@.subrange(0, i as int).map_values(|p: u32| dec_of(p as nat)))
                        .push(dec_of(pages@[i as int] as nat)));
            }
            i = i + 1;
        }
        proof {
            assert(pages@.subrange(0, pages@.len() as int) =~= pages@);
        }
        Ok(self.invocation(args))
    }

    /// Plans a rotation by the given degrees, optionally limited to a
    /// page selection.
    pub fn rotate(&self, input: &str, output: &str, degrees: i32, pages: Option<&str>) -> (r: Result<ToolInvocation, PdfEngineError>)
        ensures
            invocation_granted(self.config, "pdfcpu"@, r, rotate_args(
                input@,
                output@,
                degrees,
                match pages {
                    Option::Some(p) => Option::Some(p@),
                    Option::None => Option::None,
                },
            )),
    {
        gate(&self.config, "pdfcpu")?;
        let mut args: Vec<String> = Vec::new();
        push_string(&mut args, String::from_str("rotate"));
        push_string(&mut args, i32_to_string(degrees));
        if let Option::Some(p) = pages {
            push_string(&mut args, String::from_str("-p"));
            push_string(&mut args, p.to_owned());
        }
        push_string(&mut args, String::from_str("--"));
        push_string(&mut args, input.to_owned());
        push_string(&mut args, output.to_owned());
        proof {
            match pages {
                Option::Some(p) => {
                    assert(args.deep_view() =~= rotate_args(input@, output@, degrees, Option::Some(p@)));
                },
                Option::None => {
                    assert(args.deep_view() =~= rotate_args(input@, output@, degrees, Option::None));
                },
            }
        }
        Ok(self.invocation(args))
    }

    /// Plans a page extraction; an empty selection defaults to the
    /// first page.
    pub fn extract(&self, input: &str, output: &str, pages: &Vec<u32>) -> (r: Result<ToolInvocation, PdfEngineError>)
        ensures
            invocation_granted(self.config, "pdfcpu"@, r, extract_args(input@, output@, pages@)),
    {
        gate(&self.config, "pdfcpu")?;
        let selection = if pages.len() == 0 {
            String::from_str("1")
        } else {
            join_pages(pages)
        };
        let mut args: Vec<String> = Vec::new();
        push_string(&mut args, String::from_str("extract"));
        push_string(&mut args, String::from_str("-p"));
        push_string(&mut args, selection);
        push_string(&mut args, String::from_str("--"));
        push_string(&mut args, input.to_owned());
        push_string(&mut args, output.to_owned());
        proof {
            assert(args.deep_view() =~= extract_args(input@, output@, pages@));
        }
        Ok(self.invocation(args))
    }

    /// Plans an encryption under an owner password and an optional user
    /// password.
    pub fn encrypt(&self, input: &str, output: &str, owner: &str, user: Option<&str>) -> (r: Result<ToolInvocation, PdfEngineError>)
        ensures
            invocation_granted(self.config, "pdfcpu"@, r, encrypt_args(
                input@,
                output@,
                owner@,
                match user {
                    Option::Some(u) => Option::Some(u@),
                    Option::None => Option::None,
                },
            )),
    {
        gate(&self.config, "pdfcpu")?;
        let mut args: Vec<String> = Vec::new();
        push_string(&mut args, String::from_str("encrypt"));
        push_string(&mut args, String::from_str("-opw"));
        push_string(&mut args, owner.to_owned());
        if let Option::Some(u) = user {
            push_string(&mut args, String::from_str("-upw"));
            push_string(&mut args, u.to_owned());
        }
        push_string(&mut args, String::from_str("--"));
        push_string(&mut args, input.to_owned());
        push_string(&mut args, output.to_owned());
        proof {
            match user {
                Option::Some(u) => {
                    assert(args.deep_view() =~= encrypt_args(input@, output@, owner@, Option::Some(u@)));
                },
                Option::None => {
                    assert(args.deep_view() =~= encrypt_args(input@, output@, owner@, Option::None));
                },
            }
        }
        Ok(self.invocation(args))
    }

    /// Plans a decryption under the user password.
    pub fn decrypt(&self, input: &str, output: &str, password: &str) -> (r: Result<ToolInvocation, PdfEngineError>)
        ensures
            invocation_granted(self.config, "pdfcpu"@, r, decrypt_args(input@, output@, password@)),
    {
        gate(&self.config, "pdfcpu")?;
        let mut args: Vec<String> = Vec::new();
        push_string(&mut args, String::from_str("decrypt"));
        push_string(&mut args, String::from_str("-upw"));
        push_string(&mut args, password.to_owned());
        push_string(&mut args, String::from_str("--"));
        push_string(&mut args, input.to_owned());
        push_string(&mut args, output.to_owned());
        proof {
            assert(args.deep_view() =~= decrypt_args(input@, output@, password@));
        }
        Ok(self.invocation(args))
    }

    /// Plans a metadata dump of the input into a JSON file.
    pub fn get_metadata(&self, input: &str, output: &str) -> (r: Result<ToolInvocation, PdfEngineError>)
        ensures
            invocation_granted(self.config, "pdfcpu"@, r, get_metadata_args(input@, output@)),
    {
        gate(&self.config, "pdfcpu")?;
        let mut args: Vec<String> = Vec::new();
        push_string(&mut args, String::from_str("info"));
        push_string(&mut args, String::from_str("-json"));
        push_string(&mut args, String::from_str("--"));
        push_string(&mut args, input.to_owned());
        push_string(&mut args, output.to_owned());
        proof {
            assert(args.deep_view() =~= get_metadata_args(input@, output@));
        }
        Ok(self.invocation(args))
    }

    /// Plans a metadata write of the given property entries.
    pub fn set_metadata(&self, input: &str, output: &str, entries: &Vec<String>) -> (r: Result<ToolInvocation, PdfEngineError>)
        ensures
            invocation_granted(self.config, "pdfcpu"@, r, set_metadata_args(input@, output@, entries.deep_view())),
    {
        gate(&self.config, "pdfcpu")?;
        let mut args: Vec<String> = Vec::new();
        push_string(&mut args, String::from_str("properties"));
        proof {
            assert(args.deep_view() =~= seq!["properties"@]);
        }
        extend_strings(&mut args, entries);
        push_string(&mut args, String::from_str("--"));
        push_string(&mut args, input.to_owned());
        push_string(&mut args, output.to_owned());
        proof {
            assert(args.deep_view() =~= set_metadata_args(input@, output@, entries.deep_view()));
        }
        Ok(self.invocation(args))
    }
}

/// The adapter around the page-selection tool used for reordering.
#[derive(Debug)]
pub struct QpdfAdapter {
    pub config: ToolConfig,
}

impl Clone for QpdfAdapter {
    fn clone(&self) -> (r: Self)
        ensures
            r.config.enabled == self.config.enabled,
            r.config.executable@ == self.config.executable@,
            r.config.timeout_secs == self.config.timeout_secs,
    {
        QpdfAdapter { config: self.config.clone() }
    }
}

impl QpdfAdapter {
    /// Plans a reorder of the input's pages by an explicit selection.
    pub fn reorder(&self, input: &str, output: &str, pages: &str) -> (r: Result<ToolInvocation, PdfEngineError>)
        ensures
            invocation_granted(self.config, "qpdf"@, r, reorder_args(input@, output@, pages@)),
    {
        gate(&self.config, "qpdf")?;
        let mut args: Vec<String> = Vec::new();
        push_string(&mut args, input.to_owned());
        push_string(&mut args, String::from_str("--pages"));
        push_string(&mut args, String::from_str("."));
        push_string(&mut args, pages.to_owned());
        push_string(&mut args, String::from_str("--"));
        push_string(&mut args, output.to_owned());
        proof {
            assert(args.deep_view() =~= reorder_args(input@, output@, pages@));
        }
        Ok(ToolInvocation {
            tool: String::from_str("qpdf"),
            executable: self.config.executable.clone(),
            args,
            timeout_secs: self.config.timeout_secs,
        })
    }
}

/// The adapter around the PostScript engine used for compression.
#[derive(Debug)]
pub struct GhostscriptAdapter {
    pub config: ToolConfig,
}

impl Clone for GhostscriptAdapter {
    fn clone(&self) -> (r: Self)
        ensures
            r.config.enabled == self.config.enabled,
            r.config.executable@ == self.config.executable@,
            r.config.timeout_secs == self.config.timeout_secs,
    {
        GhostscriptAdapter { config: self.config.clone() }
    }
}

impl GhostscriptAdapter {
    /// Plans a compression of the input under the given preset.
    pub fn compress(&self, input: &str, output: &str, preset: &str) -> (r: Result<ToolInvocation, PdfEngineError>)
        ensures
            invocation_granted(self.config, "ghostscript"@, r, compress_args(input@, output@, preset@)),
    {
        gate(&self.config, "ghostscript")?;
        let mut args: Vec<String> = Vec::new();
        push_string(&mut args, String::from_str("-sDEVICE=pdfwrite"));
        push_string(&mut args, String::from_str("-dPDFSETTINGS=/").concat(preset));
        push_string(&mut args, String::from_str("-dNOPAUSE"));
        push_string(&mut args, String::from_str("-dBATCH"));
        push_string(&mut args, String::from_str("-dSAFER"));
        push_string(&mut args, String::from_str("-sOutputFile=").concat(output));
        push_string(&mut args, input.to_owned());
        proof {
            assert(args.deep_view() =~= compress_args(input@, output@, preset@));
        }
        Ok(ToolInvocation {
            tool: String::from_str("ghostscript"),
            executable: self.config.executable.clone(),
            args,
            timeout_secs: self.config.timeout_secs,
        })
    }
}

} // verus!
