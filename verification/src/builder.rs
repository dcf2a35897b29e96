//! The invocation builder: an immutable configuration value, grown by
//! with-option steps, rendered to the flat argument vector the external
//! tool takes, and the classification of a finished run's outcome.

use vstd::prelude::*;
use crate::{Error, ProcessOutcome, YoutubeDlOutput, json_output_rel, raw_output_rel};
use crate::json::Json;
use crate::search::{SearchOptions, spec_query_string};
use crate::text::{dec_digits, dec_string_u64, lossy_decode, utf8_to_string_lossy};

verus! {

broadcast use vstd::std_specs::vec::group_vec_axioms, vstd::seq::group_seq_axioms;

/// A configuration for one run of the external tool. Each with-option
/// method consumes the value and returns it with one setting changed, so a
/// chain of calls reads like the tool's command line.
#[derive(Debug, Clone)]
pub struct YoutubeDl {
    /// The path of the tool to run; `yt-dlp` on the search path when unset.
    pub youtube_dl_path: Option<String>,
    /// The `-f` option.
    pub format: Option<String>,
    /// The `--flat-playlist` flag.
    pub flat_playlist: bool,
    /// The `--socket-timeout` option.
    pub socket_timeout: Option<String>,
    /// The `--all-formats` flag.
    pub all_formats: bool,
    /// The `-u` and `-p` options.
    pub auth: Option<(String, String)>,
    /// The `--cookies` option.
    pub cookies: Option<String>,
    /// The `--user-agent` option.
    pub user_agent: Option<String>,
    /// The `--referer` option.
    pub referer: Option<String>,
    /// The target URL (or search pseudo-URL).
    pub url: String,
    /// The wall-clock limit for the whole run, in milliseconds.
    pub process_timeout: Option<u64>,
    /// Whether the playlist order is reversed (kept for callers; not rendered).
    pub playlist_reverse: bool,
    /// The `--datebefore` option.
    pub date_before: Option<String>,
    /// The `--dateafter` option.
    pub date_after: Option<String>,
    /// The `--date` option.
    pub date: Option<String>,
    /// The `--extract-audio` flag.
    pub extract_audio: bool,
    /// The `--playlist-items` option, rendered as decimal text.
    pub playlist_items: Option<String>,
    /// Extra raw arguments appended after everything else.
    pub extra_args: Vec<String>,
    /// The `-o` output template.
    pub output_template: Option<String>,
    /// The `-P` output directory.
    pub output_directory: Option<String>,
    /// Whether a driver should echo the raw output for inspection.
    pub debug: bool,
    /// Whether a non-zero exit is tolerated (`--ignore-errors`).
    pub ignore_errors: bool,
}

/// The character sequences of a vector of strings, in order.
pub open spec fn views_of(v: Seq<String>) -> Seq<Seq<char>> {
    Seq::new(v.len(), |i: int| v[i]@)
}

/// A flag with its value, when the value is set.
pub open spec fn opt_pair(flag: Seq<char>, o: Option<String>) -> Seq<Seq<char>> {
    match o {
        Option::Some(s) => seq![flag, s@],
        Option::None => seq![],
    }
}

/// A bare flag, when it is on.
pub open spec fn flag_if(b: bool, flag: Seq<char>) -> Seq<Seq<char>> {
    if b {
        seq![flag]
    } else {
        seq![]
    }
}

/// The arguments shared by every mode of invoking the tool, in the order
/// the tool receives them.
pub open spec fn spec_common_args(d: YoutubeDl) -> Seq<Seq<char>> {
    opt_pair("-f"@, d.format) + flag_if(d.flat_playlist, "--flat-playlist"@) + opt_pair(
        "--socket-timeout"@,
        d.socket_timeout,
    ) + flag_if(d.all_formats, "--all-formats"@) + (match d.auth {
        Option::Some((u, p)) => seq!["-u"@, u@, "-p"@, p@],
        Option::None => seq![],
    }) + opt_pair("--cookies"@, d.cookies) + opt_pair("--user-agent"@, d.user_agent) + opt_pair(
        "--referer"@,
        d.referer,
    ) + flag_if(d.extract_audio, "--extract-audio"@) + opt_pair(
        "--playlist-items"@,
        d.playlist_items,
    ) + opt_pair("-o"@, d.output_template) + opt_pair("-P"@, d.output_directory) + opt_pair(
        "--date"@,
        d.date,
    ) + opt_pair("--dateafter"@, d.date_after) + opt_pair("--datebefore"@, d.date_before)
        + flag_if(d.ignore_errors, "--ignore-errors"@) + views_of(d.extra_args@)
}

/// The arguments of a metadata run: the common ones, the output directory
/// once more, `-J`, and the target URL.
pub open spec fn spec_process_args(d: YoutubeDl) -> Seq<Seq<char>> {
    spec_common_args(d) + opt_pair("-P"@, d.output_directory) + seq!["-J"@, d.url@]
}

/// The arguments of a download run into `folder`.
pub open spec fn spec_download_args(d: YoutubeDl, folder: Seq<char>) -> Seq<Seq<char>> {
    spec_common_args(d) + seq!["-P"@, folder, "--no-simulate"@, "--no-progress"@, d.url@]
}

fn push_flag_if(args: &mut Vec<String>, b: bool, flag: &str)
    ensures
        views_of(final(args)@) == views_of(old(args)@) + flag_if(b, flag@),
{
    if b {
        args.push(String::from_str(flag));
    }
    proof {
        assert(views_of(args@) =~= views_of(old(args)@) + flag_if(b, flag@));
    }
}

fn push_opt_pair(args: &mut Vec<String>, flag: &str, o: &Option<String>)
    ensures
        views_of(final(args)@) == views_of(old(args)@) + opt_pair(flag@, *o),
{
    match o {
        Option::Some(s) => {
            args.push(String::from_str(flag));
            args.push(s.clone());
        },
        Option::None => {},
    }
    proof {
        assert(views_of(args@) =~= views_of(old(args)@) + opt_pair(flag@, *o));
    }
}

fn push_pair(args: &mut Vec<String>, flag: &str, value: &String)
    ensures
        views_of(final(args)@) == views_of(old(args)@) + seq![flag@, value@],
{
    args.push(String::from_str(flag));
    args.push(value.clone());
    proof {
        assert(views_of(args@) =~= views_of(old(args)@) + seq![flag@, value@]);
    }
}

impl YoutubeDl {
    /// A fresh configuration for one target URL, with nothing else set.
    pub fn new(url: &str) -> (r: Self)
        ensures
            r.url@ == url@,
            r.youtube_dl_path is None,
            r.format is None,
            !r.flat_playlist,
            r.socket_timeout is None,
            !r.all_formats,
            r.auth is None,
            r.cookies is None,
            r.user_agent is None,
            r.referer is None,
            r.process_timeout is None,
            !r.playlist_reverse,
            r.date_before is None,
            r.date_after is None,
            r.date is None,
            !r.extract_audio,
            r.playlist_items is None,
            r.extra_args@ == Seq::<String>::empty(),
            r.output_template is None,
            r.output_directory is None,
            !r.debug,
            !r.ignore_errors,
    {
        YoutubeDl {
            youtube_dl_path: None,
            format: None,
            flat_playlist: false,
            socket_timeout: None,
            all_formats: false,
            auth: None,
            cookies: None,
            user_agent: None,
            referer: None,
            url: url.to_owned(),
            process_timeout: None,
            playlist_reverse: false,
            date_before: None,
            date_after: None,
            date: None,
            extract_audio: false,
            playlist_items: None,
            extra_args: Vec::new(),
            output_template: None,
            output_directory: None,
            debug: false,
            ignore_errors: false,
        }
    }

    /// A configuration whose target is the rendered search pseudo-URL.
    pub fn search_for(options: &SearchOptions) -> (r: Self)
        ensures
            r.url@ == spec_query_string(*options),
            r.format is None,
            r.process_timeout is None,
            !r.ignore_errors,
    {
        let q = options.to_query_string();
        Self::new(q.as_str())
    }

    /// Sets the path to the `youtube-dl` or `yt-dlp` executable.
    pub fn youtube_dl_path(self, youtube_dl_path: &str) -> (r: Self)
        ensures
            r == (YoutubeDl { youtube_dl_path: r.youtube_dl_path, ..self }),
            r.youtube_dl_path matches Some(s) && s@ == youtube_dl_path@,
    {
        YoutubeDl { youtube_dl_path: Some(youtube_dl_path.to_owned()), ..self }
    }

    /// Sets the `-f` command line option.
    pub fn format(self, format: &str) -> (r: Self)
        ensures
            r == (YoutubeDl { format: r.format, ..self }),
            r.format matches Some(s) && s@ == format@,
    {
        YoutubeDl { format: Some(format.to_owned()), ..self }
    }

    /// Sets the `--flat-playlist` command line flag.
    pub fn flat_playlist(self, flat_playlist: bool) -> (r: Self)
        ensures
            r == (YoutubeDl { flat_playlist: r.flat_playlist, ..self }),
            r.flat_playlist == flat_playlist,
    {
        YoutubeDl { flat_playlist: flat_playlist, ..self }
    }

    /// Sets the `--socket-timeout` command line option.
    pub fn socket_timeout(self, socket_timeout: &str) -> (r: Self)
        ensures
            r == (YoutubeDl { socket_timeout: r.socket_timeout, ..self }),
            r.socket_timeout matches Some(s) && s@ == socket_timeout@,
    {
        YoutubeDl { socket_timeout: Some(socket_timeout.to_owned()), ..self }
    }

    /// Sets the `--user-agent` command line option.
    pub fn user_agent(self, user_agent: &str) -> (r: Self)
        ensures
            r == (YoutubeDl { user_agent: r.user_agent, ..self }),
            r.user_agent matches Some(s) && s@ == user_agent@,
    {
        YoutubeDl { user_agent: Some(user_agent.to_owned()), ..self }
    }

    /// Sets the playlist-reverse flag, useful with date filters for faster queries.
    pub fn playlist_reverse(self, playlist_reverse: bool) -> (r: Self)
        ensures
            r == (YoutubeDl { playlist_reverse: r.playlist_reverse, ..self }),
            r.playlist_reverse == playlist_reverse,
    {
        YoutubeDl { playlist_reverse: playlist_reverse, ..self }
    }

    /// Sets the `--date` option: only items published on this date.
    pub fn date(self, date: &str) -> (r: Self)
        ensures
            r == (YoutubeDl { date: r.date, ..self }),
            r.date matches Some(s) && s@ == date@,
    {
        YoutubeDl { date: Some(date.to_owned()), ..self }
    }

    /// Sets the `--datebefore` option: only items published on or before this date.
    pub fn date_before(self, date_before: &str) -> (r: Self)
        ensures
            r == (YoutubeDl { date_before: r.date_before, ..self }),
            r.date_before matches Some(s) && s@ == date_before@,
    {
        YoutubeDl { date_before: Some(date_before.to_owned()), ..self }
    }

    /// Sets the `--dateafter` option: only items published on or after this date.
    pub fn date_after(self, date_after: &str) -> (r: Self)
        ensures
            r == (YoutubeDl { date_after: r.date_after, ..self }),
            r.date_after matches Some(s) && s@ == date_after@,
    {
        YoutubeDl { date_after: Some(date_after.to_owned()), ..self }
    }

    /// Sets the `--referer` command line option.
    pub fn referer(self, referer: &str) -> (r: Self)
        ensures
            r == (YoutubeDl { referer: r.referer, ..self }),
            r.referer matches Some(s) && s@ == referer@,
    {
        YoutubeDl { referer: Some(referer.to_owned()), ..self }
    }

    /// Sets the `--all-formats` command line flag.
    pub fn all_formats(self, all_formats: bool) -> (r: Self)
        ensures
            r == (YoutubeDl { all_formats: r.all_formats, ..self }),
            r.all_formats == all_formats,
    {
        YoutubeDl { all_formats: all_formats, ..self }
    }

    /// Sets the `-u` and `-p` command line options.
    pub fn auth(self, username: &str, password: &str) -> (r: Self)
        ensures
            r == (YoutubeDl { auth: r.auth, ..self }),
            r.auth matches Some(p) && p.0@ == username@ && p.1@ == password@,
    {
        YoutubeDl { auth: Some((username.to_owned(), password.to_owned())), ..self }
    }

    /// Names a file with cookies in Netscape cookie format.
    pub fn cookies(self, cookies: &str) -> (r: Self)
        ensures
            r == (YoutubeDl { cookies: r.cookies, ..self }),
            r.cookies matches Some(s) && s@ == cookies@,
    {
        YoutubeDl { cookies: Some(cookies.to_owned()), ..self }
    }

    /// Sets a wall-clock limit in milliseconds for the whole run; when it elapses the run fails with `Error::ProcessTimeout`.
    pub fn process_timeout(self, timeout_ms: u64) -> (r: Self)
        ensures
            r == (YoutubeDl { process_timeout: r.process_timeout, ..self }),
            r.process_timeout == Some(timeout_ms),
    {
        YoutubeDl { process_timeout: Some(timeout_ms), ..self }
    }

    /// Sets the `--extract-audio` command line flag.
    pub fn extract_audio(self, extract_audio: bool) -> (r: Self)
        ensures
            r == (YoutubeDl { extract_audio: r.extract_audio, ..self }),
            r.extract_audio == extract_audio,
    {
        YoutubeDl { extract_audio: extract_audio, ..self }
    }

    /// Adds one custom raw argument not covered by the other options.
    pub fn extra_arg(self, arg: &str) -> (r: Self)
        ensures
            r == (YoutubeDl { extra_args: r.extra_args, ..self }),
            r.extra_args@.len() == self.extra_args@.len() + 1,
            r.extra_args@ =~= self.extra_args@.push(r.extra_args@.last()),
            r.extra_args@.last()@ == arg@,
    {
        let mut extra_args = self.extra_args;
        extra_args.push(arg.to_owned());
        let r = YoutubeDl { extra_args: extra_args, ..self };
        r
    }

    /// Sets the output file name template; only relevant for downloading.
    pub fn output_template(self, output_template: &str) -> (r: Self)
        ensures
            r == (YoutubeDl { output_template: r.output_template, ..self }),
            r.output_template matches Some(s) && s@ == output_template@,
    {
        YoutubeDl { output_template: Some(output_template.to_owned()), ..self }
    }

    /// Sets the output directory (the `-P` switch); only relevant for downloading.
    pub fn output_directory(self, output_directory: &str) -> (r: Self)
        ensures
            r == (YoutubeDl { output_directory: r.output_directory, ..self }),
            r.output_directory matches Some(s) && s@ == output_directory@,
    {
        YoutubeDl { output_directory: Some(output_directory.to_owned()), ..self }
    }

    /// Asks a driver to echo the raw output for inspection.
    pub fn debug(self, debug: bool) -> (r: Self)
        ensures
            r == (YoutubeDl { debug: r.debug, ..self }),
            r.debug == debug,
    {
        YoutubeDl { debug: debug, ..self }
    }

    /// Sets whether a non-zero exit code is ignored (and the `--ignore-errors` flag passed).
    pub fn ignore_errors(self, ignore_errors: bool) -> (r: Self)
        ensures
            r == (YoutubeDl { ignore_errors: r.ignore_errors, ..self }),
            r.ignore_errors == ignore_errors,
    {
        YoutubeDl { ignore_errors: ignore_errors, ..self }
    }

    /// Sets the `--playlist-items` command line option, rendered as the
    /// index in decimal.
    pub fn playlist_items(self, index: u32) -> (r: Self)
        ensures
            r == (YoutubeDl { playlist_items: r.playlist_items, ..self }),
            r.playlist_items matches Some(s) && s@ == dec_digits(index as int),
    {
        YoutubeDl { playlist_items: Some(dec_string_u64(index as u64)), ..self }
    }

    /// The path of the executable to run: the configured one, or `yt-dlp`
    /// looked up on the search path.
    pub fn path(&self) -> (r: String)
        ensures
            r@ == (match self.youtube_dl_path {
                Option::Some(p) => p@,
                Option::None => "yt-dlp"@,
            }),
    {
        match &self.youtube_dl_path {
            Some(p) => p.clone(),
            None => String::from_str("yt-dlp"),
        }
    }

    /// Renders the arguments every invocation shares, in the tool's order.
    #[verifier::loop_isolation(false)]
    #[verifier::rlimit(80)]
    pub fn common_args(&self) -> (r: Vec<String>)
        ensures
            views_of(r@) == spec_common_args(*self),
    {
        let mut args: Vec<String> = Vec::new();
        proof {
            assert(views_of(args@) =~= Seq::<Seq<char>>::empty());
        }
        push_opt_pair(&mut args, "-f", &self.format);
        proof {
            assert(Seq::<Seq<char>>::empty() + opt_pair("-f"@, self.format) =~= opt_pair(
                "-f"@,
                self.format,
            ));
        }
        push_flag_if(&mut args, self.flat_playlist, "--flat-playlist");
        push_opt_pair(&mut args, "--socket-timeout", &self.socket_timeout);
        push_flag_if(&mut args, self.all_formats, "--all-formats");
        match &self.auth {
            Some(pair) => {
                push_pair(&mut args, "-u", &pair.0);
                push_pair(&mut args, "-p", &pair.1);
                proof {
                    assert((match self.auth {
                        Option::Some((u, p)) => seq!["-u"@, u@, "-p"@, p@],
                        Option::None => seq![],
                    }) =~= seq!["-u"@, pair.0@] + seq!["-p"@, pair.1@]);
                }
            },
            None => {
                proof {
                    assert((match self.auth {
                        Option::Some((u, p)) => seq!["-u"@, u@, "-p"@, p@],
                        Option::None => seq![],
                    }) =~= Seq::<Seq<char>>::empty());
                }
            },
        }
        push_opt_pair(&mut args, "--cookies", &self.cookies);
        push_opt_pair(&mut args, "--user-agent", &self.user_agent);
        push_opt_pair(&mut args, "--referer", &self.referer);
        push_flag_if(&mut args, self.extract_audio, "--extract-audio");
        push_opt_pair(&mut args, "--playlist-items", &self.playlist_items);
        push_opt_pair(&mut args, "-o", &self.output_template);
        push_opt_pair(&mut args, "-P", &self.output_directory);
        push_opt_pair(&mut args, "--date", &self.date);
        push_opt_pair(&mut args, "--dateafter", &self.date_after);
        push_opt_pair(&mut args, "--datebefore", &self.date_before);
        push_flag_if(&mut args, self.ignore_errors, "--ignore-errors");
        let ghost before_extra = views_of(args@);
        let mut idx: usize = 0;
        proof {
            assert(views_of(self.extra_args@.take(0)) =~= Seq::<Seq<char>>::empty());
            assert(before_extra + views_of(self.extra_args@.take(0)) =~= before_extra);
        }
        while idx < self.extra_args.len()
            invariant
                0 <= idx <= self.extra_args@.len(),
                views_of(args@) == before_extra + views_of(self.extra_args@.take(idx as int)),
            decreases self.extra_args@.len() - idx,
        {
            let ghost prev = args@;
            args.push(self.extra_args[idx].clone());
            idx = idx + 1;
            proof {
                assert(views_of(self.extra_args@.take(idx as int)) =~= views_of(
                    self.extra_args@.take(idx - 1),
                ) + seq![self.extra_args@[idx - 1]@]);
                assert(views_of(args@) =~= views_of(prev) + seq![self.extra_args@[idx - 1]@]);
                assert((before_extra + views_of(self.extra_args@.take(idx - 1))) + seq![
                    self.extra_args@[idx - 1]@,
                ] =~= before_extra + (views_of(self.extra_args@.take(idx - 1)) + seq![
                    self.extra_args@[idx - 1]@,
                ]));
                assert(views_of(args@) =~= before_extra + views_of(
                    self.extra_args@.take(idx as int),
                ));
            }
        }
        proof {
            assert(self.extra_args@.take(self.extra_args@.len() as int) =~= self.extra_args@);
            assert(views_of(args@) =~= spec_common_args(*self));
        }
        args
    }

    /// Renders the argument vector of a metadata run: the common
    /// arguments, the output directory once more, `-J`, and the URL.
    pub fn process_args(&self) -> (r: Vec<String>)
        ensures
            views_of(r@) == spec_process_args(*self),
    {
        let mut args = self.common_args();
        push_opt_pair(&mut args, "-P", &self.output_directory);
        push_pair(&mut args, "-J", &self.url);
        proof {
            assert(views_of(args@) =~= spec_process_args(*self));
        }
        args
    }

    /// Renders the argument vector of a download run into `folder`.
    pub fn process_download_args(&self, folder: &str) -> (r: Vec<String>)
        ensures
            views_of(r@) == spec_download_args(*self, folder@),
    {
        let mut args = self.common_args();
        args.push(String::from_str("-P"));
        args.push(folder.to_owned());
        args.push(String::from_str("--no-simulate"));
        args.push(String::from_str("--no-progress"));
        args.push(self.url.clone());
        proof {
            assert(views_of(args@) =~= spec_download_args(*self, folder@));
        }
        args
    }

    /// Classifies a finished run and deserializes its output, exactly as
    /// the blocking and the cooperative driver both must: a timeout stays a
    /// timeout, a spawn failure stays an I/O failure, a non-zero exit
    /// becomes `Error::ExitCode` with the standard error decoded
    /// permissively, and a zero exit (or any exit under the ignore-errors
    /// opt-in) has its standard output deserialized.
    pub fn finish_run(&self, outcome: ProcessOutcome) -> (r: Result<YoutubeDlOutput, Error>)
        ensures
            outcome is TimedOut ==> r == Err::<YoutubeDlOutput, Error>(Error::ProcessTimeout),
            outcome matches ProcessOutcome::SpawnFailed(m) ==> r matches Err(e) && e
                matches Error::Io(m2) && m2 == m,
            outcome matches ProcessOutcome::Completed { code, stdout, stderr } ==> (if (code
                == Some(0i32) || self.ignore_errors) {
                json_output_rel(r, stdout@)
            } else {
                r matches Err(e) && e matches Error::ExitCode { code: c, stderr: s } && c == (
                match code {
                    Option::Some(cc) => cc,
                    Option::None => 1i32,
                }) && s@ == lossy_decode(stderr@)
            }),
    {
        match outcome {
            ProcessOutcome::TimedOut => Err(Error::ProcessTimeout),
            ProcessOutcome::SpawnFailed(m) => Err(Error::Io(m)),
            ProcessOutcome::Completed { code, stdout, stderr } => {
                let success = match code {
                    Some(c) => c == 0,
                    None => false,
                };
                if success || self.ignore_errors {
                    crate::process_json_output(stdout)
                } else {
                    let code_value: i32 = match code {
                        Some(c) => c,
                        None => 1,
                    };
                    let text = utf8_to_string_lossy(&stderr);
                    Err(Error::ExitCode { code: code_value, stderr: text })
                }
            },
        }
    }

    /// Classifies a finished run like [`YoutubeDl::finish_run`], but keeps
    /// the output as one generic JSON value: the fallback for output that
    /// does not fit the typed records.
    pub fn finish_run_raw(&self, outcome: ProcessOutcome) -> (r: Result<Json, Error>)
        ensures
            outcome is TimedOut ==> r == Err::<Json, Error>(Error::ProcessTimeout),
            outcome matches ProcessOutcome::SpawnFailed(m) ==> r matches Err(e) && e
                matches Error::Io(m2) && m2 == m,
            outcome matches ProcessOutcome::Completed { code, stdout, stderr } ==> (if (code
                == Some(0i32) || self.ignore_errors) {
                raw_output_rel(r, stdout@)
            } else {
                r matches Err(e) && e matches Error::ExitCode { code: c, stderr: s } && c == (
                match code {
                    Option::Some(cc) => cc,
                    Option::None => 1i32,
                }) && s@ == lossy_decode(stderr@)
            }),
    {
        match outcome {
            ProcessOutcome::TimedOut => Err(Error::ProcessTimeout),
            ProcessOutcome::SpawnFailed(m) => Err(Error::Io(m)),
            ProcessOutcome::Completed { code, stdout, stderr } => {
                let success = match code {
                    Some(c) => c == 0,
                    None => false,
                };
                if success || self.ignore_errors {
                    crate::process_raw_output(stdout)
                } else {
                    let code_value: i32 = match code {
                        Some(c) => c,
                        None => 1,
                    };
                    let text = utf8_to_string_lossy(&stderr);
                    Err(Error::ExitCode { code: code_value, stderr: text })
                }
            },
        }
    }
}

} // verus!

