//! Staging a script and building its invocation: the name of the file that
//! holds the script, where that file goes on a remote host, how it is
//! transferred, and the command that runs it.

use crate::command::Failure;
use crate::job::{Destination, DestinationView, Script, ScriptView};
use crate::text::texts;
use vstd::prelude::*;
use vstd::string::*;

verus! {

/// Whether a text can be part of a file's name: it holds neither a path
/// separator nor a NUL character.
pub open spec fn safe_in_file_name(text: Seq<char>) -> bool {
    forall|i: int| 0 <= i < text.len() ==> text[i] != '/' && text[i] != '\0'
}

/// The arguments of the program that transfers a file to a remote host:
/// compression on, the file, and the host's shared temporary directory.
pub open spec fn upload_arguments(local_path: Seq<char>, host: Seq<char>) -> Seq<Seq<char>> {
    seq!["-C"@, local_path, host + ":/tmp/"@]
}

/// What is to be done outside to run a script.
#[derive(Debug, PartialEq, Eq)]
pub enum Launch {
    /// Start `program` with `args` on this machine.
    Local { program: String, args: Vec<String> },
    /// Transfer the script with the arguments of `upload`, open a session
    /// with `host`, and run `command` on it.
    Remote { upload: Vec<String>, host: String, command: String },
}

/// A [`Launch`] as a mathematical value.
pub enum LaunchView {
    Local { program: Seq<char>, args: Seq<Seq<char>> },
    Remote { upload: Seq<Seq<char>>, host: Seq<char>, command: Seq<char> },
}

impl View for Launch {
    type V = LaunchView;

    open spec fn view(&self) -> LaunchView {
        match *self {
            Launch::Local { program, args } => LaunchView::Local {
                program: program@,
                args: texts(args@),
            },
            Launch::Remote { upload, host, command } => LaunchView::Remote {
                upload: texts(upload@),
                host: host@,
                command: command@,
            },
        }
    }
}

impl ScriptView {
    /// The name of the file that holds the script, here and on a remote
    /// host: `checkmate_`, the script's name, and the extension `.sh`.
    pub open spec fn file_name(self) -> Seq<char> {
        "checkmate_"@ + self.name + ".sh"@
    }

    /// Where the script lies on a remote host: under the shared temporary
    /// directory, with the name that it has here.
    pub open spec fn remote_path(self) -> Seq<char> {
        "/tmp/"@ + self.file_name()
    }

    /// The command that runs the script on a remote host: the interpreter,
    /// a space, and the script's path there.
    pub open spec fn remote_command(self) -> Seq<char> {
        self.shell.path() + " "@ + self.remote_path()
    }

    /// What a script has come to once the file that holds it was written or
    /// not: a script whose file could not be written cannot start, if
    /// local, and cannot be transferred, if remote.
    pub open spec fn written(self, written: bool) -> Result<(), Failure> {
        if written {
            Ok(())
        } else {
            match self.destination {
                DestinationView::Local => Err(Failure::SpawnError),
                DestinationView::Remote(_) => Err(Failure::UploadError),
            }
        }
    }

    /// Where the script lies on its host once it was staged or not. Staging
    /// succeeds exactly for a remote script whose file was written and whose
    /// transfer succeeded; anything else is an upload error.
    pub open spec fn staged(self, written: bool, transferred: bool) -> Result<Seq<char>, Failure> {
        if self.destination is Remote && written && transferred {
            Ok(self.remote_path())
        } else {
            Err(Failure::UploadError)
        }
    }

    /// Whether the script can be staged: its name can be part of a file's
    /// name, and a remote host is named.
    pub open spec fn well_formed(self) -> bool {
        &&& safe_in_file_name(self.name)
        &&& self.destination matches DestinationView::Remote(host) ==> host.len() > 0
    }

    /// What is to be done outside to run the script, the file that holds it
    /// lying at `local_path`; or why it cannot run.
    ///
    /// A remote script without a host fails to connect. A script whose name
    /// cannot be part of a file's name fails to start, if local, and to be
    /// transferred, if remote.
    pub open spec fn launch(self, local_path: Seq<char>) -> Result<LaunchView, Failure> {
        match self.destination {
            DestinationView::Local => if safe_in_file_name(self.name) {
                Ok(LaunchView::Local { program: self.shell.path(), args: seq![local_path] })
            } else {
                Err(Failure::SpawnError)
            },
            DestinationView::Remote(host) => if host.len() == 0 {
                Err(Failure::ConnectError)
            } else if safe_in_file_name(self.name) {
                Ok(
                    LaunchView::Remote {
                        upload: upload_arguments(local_path, host),
                        host,
                        command: self.remote_command(),
                    },
                )
            } else {
                Err(Failure::UploadError)
            },
        }
    }
}

/// The program that transfers a script to a remote host.
pub const UPLOAD_PROGRAM: &'static str = "scp";

impl Script {
    /// The name of the file that holds the script.
    pub fn file_name(&self) -> (name: String)
        ensures
            name@ == self@.file_name(),
    {
        let mut name = String::from_str("checkmate_");
        name.append(self.name.as_str());
        name.append(".sh");
        name
    }

    /// Where the script lies on a remote host.
    pub fn remote_path(&self) -> (path: String)
        ensures
            path@ == self@.remote_path(),
    {
        let mut path = String::from_str("/tmp/");
        path.append(self.file_name().as_str());
        path
    }

    /// The arguments that transfer the file at `local_path` to the script's
    /// host. A local script has none.
    pub fn upload_args(&self, local_path: &str) -> (args: Option<Vec<String>>)
        ensures
            match self@.destination {
                DestinationView::Local => args is None,
                DestinationView::Remote(host) => args matches Some(a) && texts(a@)
                    == upload_arguments(local_path@, host),
            },
    {
        match &self.destination {
            Destination::Remote(remote) => {
                let mut target = remote.clone();
                target.append(":/tmp/");
                let mut args: Vec<String> = Vec::new();
                args.push(String::from_str("-C"));
                args.push(String::from_str(local_path));
                args.push(target);
                assert(texts(args@) =~= upload_arguments(local_path@, remote@));
                Some(args)
            },
            _ => None,
        }
    }

    /// Takes the outcome of writing the file that holds the script, and
    /// gives the cause with which the script's execution fails if the file
    /// could not be written.
    pub fn written(&self, written: bool) -> (outcome: Result<(), Failure>)
        ensures
            outcome == self@.written(written),
    {
        if written {
            Ok(())
        } else {
            match &self.destination {
                Destination::Local => Err(Failure::SpawnError),
                Destination::Remote(_) => Err(Failure::UploadError),
            }
        }
    }

    /// Takes the outcomes of writing the file that holds the script and of
    /// transferring it, and gives the script's path on its host, or
    /// [`Failure::UploadError`]. There is a path exactly when the script is
    /// remote, the file was written and the transfer succeeded.
    pub fn staged(&self, written: bool, transferred: bool) -> (path: Result<String, Failure>)
        ensures
            match path {
                Ok(p) => self@.staged(written, transferred) == Ok::<Seq<char>, Failure>(p@),
                Err(cause) => self@.staged(written, transferred) == Err::<Seq<char>, Failure>(
                    cause,
                ),
            },
    {
        match &self.destination {
            Destination::Remote(_) => {
                if written && transferred {
                    Ok(self.remote_path())
                } else {
                    Err(Failure::UploadError)
                }
            },
            Destination::Local => Err(Failure::UploadError),
        }
    }

    /// Whether the script can be staged.
    pub fn is_well_formed(&self) -> (valid: bool)
        ensures
            valid == self@.well_formed(),
    {
        let named = match &self.destination {
            Destination::Local => true,
            Destination::Remote(remote) => remote.as_str().unicode_len() > 0,
        };
        named && self.has_safe_name()
    }

    /// Whether the script's name can be part of a file's name.
    pub fn has_safe_name(&self) -> (safe: bool)
        ensures
            safe == safe_in_file_name(self@.name),
    {
        let name = self.name.as_str();
        let n = name.unicode_len();
        let mut i: usize = 0;
        while i < n
            invariant
                i <= n,
                n == name@.len(),
                name@ == self@.name,
                forall|j: int| 0 <= j < i ==> name@[j] != '/' && name@[j] != '\0',
            decreases n - i,
        {
            let c = name.get_char(i);
            if c == '/' || c == '\0' {
                assert(!safe_in_file_name(name@)) by {
                    assert(name@[i as int] == c);
                }
                return false;
            }
            i += 1;
        }
        true
    }

    /// What is to be done outside to run the script, the file that holds it
    /// lying at `local_path`; or why it cannot run.
    pub fn launch(&self, local_path: &str) -> (plan: Result<Launch, Failure>)
        ensures
            match plan {
                Ok(launch) => self@.launch(local_path@) == Ok::<LaunchView, Failure>(launch@),
                Err(cause) => self@.launch(local_path@) == Err::<LaunchView, Failure>(cause),
            },
    {
        let safe = self.has_safe_name();
        let program = match self.environment.with_shell(&self.shell) {
            Ok(program) => program,
            Err(cause) => {
                return Err(cause);
            },
        };
        match &self.destination {
            Destination::Local => {
                if !safe {
                    return Err(Failure::SpawnError);
                }
                let mut args: Vec<String> = Vec::new();
                args.push(String::from_str(local_path));
                assert(texts(args@) =~= seq![local_path@]);
                Ok(Launch::Local { program, args })
            },
            Destination::Remote(remote) => {
                if remote.as_str().unicode_len() == 0 {
                    return Err(Failure::ConnectError);
                }
                if !safe {
                    return Err(Failure::UploadError);
                }
                let upload = match self.upload_args(local_path) {
                    Some(upload) => upload,
                    None => {
                        return Err(Failure::UploadError);
                    },
                };
                let mut command = program;
                command.append(" ");
                command.append(self.remote_path().as_str());
                Ok(Launch::Remote { upload, host: remote.clone(), command })
            },
        }
    }
}

/// A script can be launched exactly when it is well formed, wherever the
/// file that holds it lies.
pub proof fn law_launch_needs_well_formed(script: ScriptView, local_path: Seq<char>)
    ensures
        script.launch(local_path) is Ok <==> script.well_formed(),
{
}

} // verus!
