//! What a local shell session is started with, and what its reader does with
//! each read from the pseudo-terminal.
//!
//! Opening the pseudo-terminal, spawning the shell and reading from it are
//! the caller's part; this module decides the geometry, the command line and
//! the environment of the shell, and turns what was read into notifications.

use crate::events::{ended, output_of, spec_output_event, Notification, NotificationView};
use crate::text::{lemma_text_round_trip, same_text};
use vstd::prelude::*;
use vstd::utf8::encode_utf8;

verus! {

/// How many bytes the reader asks for at a time.
pub const READ_BUFFER_SIZE: usize = 8192;

/// The terminal type every local shell is told it runs on.
pub const TERM_VALUE: &'static str = "xterm-256color";

/// What the caller asks for when it opens a local session.
#[derive(Debug)]
pub struct PtyConfig {
    pub id: String,
    pub shell: String,
    pub cols: u16,
    pub rows: u16,
}

/// Mathematical model of [`PtyConfig`].
pub struct PtyConfigView {
    pub id: Seq<char>,
    pub shell: Seq<char>,
    pub cols: u16,
    pub rows: u16,
}

impl View for PtyConfig {
    type V = PtyConfigView;

    open spec fn view(&self) -> PtyConfigView {
        PtyConfigView { id: self.id@, shell: self.shell@, cols: self.cols, rows: self.rows }
    }
}

impl Clone for PtyConfig {
    fn clone(&self) -> (copy: Self)
        ensures
            copy@ == self@,
    {
        PtyConfig {
            id: self.id.clone(),
            shell: self.shell.clone(),
            cols: self.cols,
            rows: self.rows,
        }
    }
}

/// The size of a pseudo-terminal, in character cells and in pixels.
#[derive(Debug, Clone, Copy, PartialEq, Eq, Structural)]
pub struct PtyGeometry {
    pub rows: u16,
    pub cols: u16,
    pub pixel_width: u16,
    pub pixel_height: u16,
}

impl PtyGeometry {
    /// A terminal of `rows` by `cols` cells that reports no pixel size.
    pub fn cells(rows: u16, cols: u16) -> (size: Self)
        ensures
            size == (PtyGeometry { rows, cols, pixel_width: 0, pixel_height: 0 }),
    {
        PtyGeometry { rows, cols, pixel_width: 0, pixel_height: 0 }
    }
}

/// Whether a variable of the caller's environment is handed on to the shell.
pub open spec fn is_inherited(key: Seq<char>) -> bool {
    ||| key == "HOME"@
    ||| key == "PATH"@
    ||| key == "USER"@
    ||| key == "SHELL"@
    ||| key == "LANG"@
    ||| key == "LC_ALL"@
}

/// Whether a variable of the caller's environment is handed on to the shell.
pub fn inherits(key: &str) -> (inherited: bool)
    ensures
        inherited == is_inherited(key@),
{
    same_text(key, "HOME") || same_text(key, "PATH") || same_text(key, "USER") || same_text(
        key,
        "SHELL",
    ) || same_text(key, "LANG") || same_text(key, "LC_ALL")
}

/// The characters of each string of a list, in order.
pub open spec fn arg_views(args: Seq<String>) -> Seq<Seq<char>> {
    Seq::new(args.len(), |i: int| args[i]@)
}

/// The characters of each name and value of a list of variables, in order.
pub open spec fn env_views(vars: Seq<(String, String)>) -> Seq<(Seq<char>, Seq<char>)> {
    Seq::new(vars.len(), |i: int| (vars[i].0@, vars[i].1@))
}

/// The variables set for the shell: the terminal type first, then every
/// variable of `environment` that is handed on, in the order given.
pub open spec fn shell_environment(environment: Seq<(Seq<char>, Seq<char>)>) -> Seq<
    (Seq<char>, Seq<char>),
> {
    seq![("TERM"@, "xterm-256color"@)] + environment.filter(
        |var: (Seq<char>, Seq<char>)| is_inherited(var.0),
    )
}

/// How to start the shell of a local session.
#[derive(Debug)]
pub struct ShellLaunch {
    /// The program to run.
    pub program: String,
    /// Its arguments, after the program's own name.
    pub args: Vec<String>,
    /// The variables to set for it, in order; a later one wins.
    pub env: Vec<(String, String)>,
    /// The size the pseudo-terminal is opened with.
    pub size: PtyGeometry,
}

/// Mathematical model of [`ShellLaunch`].
pub struct ShellLaunchView {
    pub program: Seq<char>,
    pub args: Seq<Seq<char>>,
    pub env: Seq<(Seq<char>, Seq<char>)>,
    pub size: PtyGeometry,
}

impl View for ShellLaunch {
    type V = ShellLaunchView;

    open spec fn view(&self) -> ShellLaunchView {
        ShellLaunchView {
            program: self.program@,
            args: arg_views(self.args@),
            env: env_views(self.env@),
            size: self.size,
        }
    }
}

/// The launch that `config` asks for in the environment `environment`.
pub open spec fn launch_of(
    config: PtyConfigView,
    environment: Seq<(Seq<char>, Seq<char>)>,
) -> ShellLaunchView {
    ShellLaunchView {
        program: config.shell,
        args: seq!["-i"@],
        env: shell_environment(environment),
        size: PtyGeometry { rows: config.rows, cols: config.cols, pixel_width: 0, pixel_height: 0 },
    }
}

impl PtyConfig {
    /// The size the session's pseudo-terminal is opened with.
    pub fn geometry(&self) -> (size: PtyGeometry)
        ensures
            size == (PtyGeometry {
                rows: self.rows,
                cols: self.cols,
                pixel_width: 0,
                pixel_height: 0,
            }),
    {
        PtyGeometry::cells(self.rows, self.cols)
    }

    /// How to start the session's shell: the configured program as an
    /// interactive shell, with the terminal type forced and the allowed
    /// variables of `environment` handed on.
    pub fn launch(&self, environment: &Vec<(String, String)>) -> (plan: ShellLaunch)
        ensures
            plan@ == launch_of(self@, env_views(environment@)),
    {
        let mut args: Vec<String> = Vec::new();
        args.push("-i".to_owned());
        assert(arg_views(args@) =~= seq!["-i"@]);
        let mut env: Vec<(String, String)> = Vec::new();
        env.push(("TERM".to_owned(), TERM_VALUE.to_owned()));
        let ghost handed_on = |var: (Seq<char>, Seq<char>)| is_inherited(var.0);
        let ghost given = env_views(environment@);
        proof {
            reveal(Seq::filter);
            assert(given.take(0).filter(handed_on) =~= Seq::<(Seq<char>, Seq<char>)>::empty());
            assert(env_views(env@) =~= seq![("TERM"@, "xterm-256color"@)] + given.take(0).filter(
                handed_on,
            ));
        }
        let mut i: usize = 0;
        while i < environment.len()
            invariant
                i <= environment.len(),
                given == env_views(environment@),
                handed_on == (|var: (Seq<char>, Seq<char>)| is_inherited(var.0)),
                env_views(env@) == seq![("TERM"@, "xterm-256color"@)] + given.take(
                    i as int,
                ).filter(handed_on),
            decreases environment.len() - i,
        {
            proof {
                reveal(Seq::filter);
                assert(given.take(i + 1).drop_last() =~= given.take(i as int));
                assert(given.take(i + 1).last() == given[i as int]);
            }
            if inherits(environment[i].0.as_str()) {
                let ghost earlier = env@;
                env.push((environment[i].0.clone(), environment[i].1.clone()));
                assert(env_views(env@) =~= env_views(earlier).push(given[i as int]));
            }
            i += 1;
        }
        assert(given.take(environment.len() as int) =~= given);
        ShellLaunch { program: self.shell.clone(), args, env, size: self.geometry() }
    }
}

/// What the reader of session `terminal_id` publishes after one read:
/// output for a chunk that holds bytes, and the end of the session for an
/// empty read or a read that failed (`None`).
pub open spec fn after_read(terminal_id: Seq<char>, read: Option<Seq<u8>>) -> NotificationView {
    match read {
        Some(chunk) => if chunk.len() == 0 {
            ended(terminal_id)
        } else {
            output_of(terminal_id, chunk)
        },
        None => ended(terminal_id),
    }
}

/// Text that was written to a session and is read back as it was written is
/// published as that text, as output of that session: the bytes handed to
/// the pseudo-terminal for a text are its UTF-8 encoding, and a chunk that
/// holds exactly those bytes decodes to the text.
pub proof fn lemma_written_text_is_read_back(terminal_id: Seq<char>, text: Seq<char>)
    requires
        text.len() > 0,
    ensures
        after_read(terminal_id, Some(encode_utf8(text))) == (NotificationView::Output {
            event: spec_output_event(terminal_id),
            text,
        }),
{
    lemma_text_round_trip(text);
}

/// What the reader of session `terminal_id` publishes after one read.
/// `read` holds the bytes that the read delivered, or `None` if it failed.
pub fn on_read(terminal_id: &str, read: Option<&[u8]>) -> (notice: Notification)
    ensures
        notice@ == after_read(
            terminal_id@,
            match read {
                Some(chunk) => Some(chunk@),
                None => None,
            },
        ),
{
    match read {
        Some(chunk) => if chunk.len() == 0 {
            Notification::ended(terminal_id)
        } else {
            Notification::output(terminal_id, chunk)
        },
        None => Notification::ended(terminal_id),
    }
}

} // verus!
