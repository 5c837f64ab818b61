//! What a finished command left behind.
use vstd::prelude::*;
use vstd::string::*;

verus! {

/// Result of executing a command: raw output and metadata.
pub struct RunResult {
    pub stdout: String,
    pub stderr: String,
    pub exit_code: i32,
    pub elapsed_ms: u128,
}

impl RunResult {
    /// Standard output, then standard error, with a line feed between them
    /// where both hold something.
    pub open spec fn combined_text(&self) -> Seq<char> {
        if self.stderr@.len() == 0 {
            self.stdout@
        } else if self.stdout@.len() == 0 {
            self.stderr@
        } else {
            self.stdout@ + "\n"@ + self.stderr@
        }
    }

    /// Merge stdout and stderr into a single string.
    pub fn combined(&self) -> (out: String)
        ensures
            out@ == self.combined_text(),
    {
        let mut buf = self.stdout.clone();
        if !self.stderr.as_str().is_empty() {
            if !buf.as_str().is_empty() {
                buf.append("\n");
            }
            buf.append(self.stderr.as_str());
            assert(Seq::<char>::empty() + self.stderr@ =~= self.stderr@);
        }
        buf
    }

    /// Whether the command exited with code zero.
    pub fn success(&self) -> (ok: bool)
        ensures
            ok == (self.exit_code == 0),
    {
        self.exit_code == 0
    }
}

} // verus!
