use cx_proxy::compress::cargo::{
    compress_bench, compress_build, compress_clippy, compress_dep_change, compress_doc,
    compress_fmt, compress_install, compress_publish, compress_run, compress_test,
    compress_update,
};
use cx_proxy::compress::docker::{compress_images, compress_ps};
use cx_proxy::compress::git::{
    compress_blame, compress_branch, compress_checkout, compress_clean, compress_diff,
    compress_merge_like, compress_remote, compress_stash, compress_status, compress_tag,
    compress_transfer, compress_write_op,
};
use cx_proxy::compress::grep::compress_grep;
use cx_proxy::compress::python::{
    compress_mypy, compress_pip_install, compress_pip_list, compress_pip_outdated,
    compress_pytest, compress_ruff, compress_uv_dep, compress_uv_lock, compress_uv_sync,
};
use cx_proxy::truncate::truncate;

fn rows(prefix: &str, n: usize) -> String {
    (0..n).map(|i| format!("{prefix}{i}\n")).collect()
}

fn listed(prefix: &str, n: usize) -> String {
    (0..n).map(|i| format!("  {prefix}{i}\n")).collect()
}

// ── git ──

#[test]
fn status_exact() {
    let raw = "On branch dev\nYour branch is ahead of 'origin/dev' by 3 commits.\n  (use \"git push\" to publish your local commits)\n\nChanges to be committed:\n  (use \"git restore --staged <file>...\" to unstage)\n\tnew file:   a.rs\n\tmodified:   b.rs\n\nChanges not staged for commit:\n\tmodified:   c.rs\nUntracked files:\n  tmp.log\nno indent\n\n";
    assert_eq!(
        compress_status(raw),
        "[branch] dev | Your branch is ahead of 'origin/dev' by 3 commits.\n[staged 2] new file:   a.rs, modified:   b.rs\n[modified 1] modified:   c.rs\n[untracked 1] tmp.log\n"
    );
}

#[test]
fn status_edge_cases() {
    assert_eq!(compress_status(""), "[branch] (detached)\n[clean]\n");
    assert_eq!(
        compress_status("On branch On branch x\nYour branch is up to date with 'o/x'.\n"),
        "[branch] x\n[clean]\n"
    );
    assert_eq!(compress_status("On branchless\n"), "[branch] On branchless\n[clean]\n");
    // An indented line before any section belongs to none.
    assert_eq!(compress_status("\tstray\n"), "[branch] (detached)\n[clean]\n");
    // A line of blanks under a section counts as an entry without a name.
    assert_eq!(
        compress_status("Untracked files:\n   \n\tx\n"),
        "[branch] (detached)\n[untracked 2] , x\n"
    );
}

#[test]
fn diff_exact() {
    let stat = " src/main.rs | 10 ++++------\n src/lib.rs  |  3 +++\n 2 files changed, 7 insertions(+), 6 deletions(-)\n";
    assert_eq!(
        compress_diff(stat),
        "[diff]\n   src/main.rs | 10 ++++------\n   src/lib.rs  |  3 +++\n"
    );
    // The name of a file is the last field of its header, without any
    // leading `b/`.
    let patch = "diff --git a/a.rs b/a.rs\n+line1\n+line2\ndiff --git a/b.rs b/b/c/b.rs\n-old\n+new\n--- x\n+++ y\n";
    assert_eq!(compress_diff(patch), "[diff]\n  a.rs: +2 -0\n  c/b.rs: +1 -1\n");
    assert_eq!(compress_diff("+stray\n-lines\n"), "[diff]\n  (no changes)\n");
    assert_eq!(compress_diff(""), "[diff]\n  (no changes)\n");
    // A line of 120 characters is too long for a line of the statistic.
    let long = format!("{} | +", "f".repeat(116));
    assert_eq!(long.len(), 120);
    assert_eq!(compress_diff(&long), "[diff]\n  (no changes)\n");
    let short = format!("{} | +", "f".repeat(115));
    assert_eq!(compress_diff(&short), format!("[diff]\n  {short}\n"));
}

#[test]
fn transfer_exact() {
    let raw = "Enumerating objects: 5, done.\nCounting objects: 100% (5/5), done.\nDelta compression using up to 8 threads\nCompressing objects: 100% (3/3), done.\nWriting objects: 100% (3/3), 330 bytes | 330.00 KiB/s, done.\nTotal 3 (delta 2), reused 0 (delta 0)\nremote: Resolving deltas: 100% (2/2), completed with 2 local objects.\n\nTo github.com:user/repo.git\n   abc1234..def5678  main -> main\n";
    assert_eq!(
        compress_transfer("push", raw),
        "[git push] To github.com:user/repo.git |    abc1234..def5678  main -> main"
    );
    assert_eq!(compress_transfer("clone", "  Receiving 100%\n"), "[git clone] ok");
    assert_eq!(compress_transfer("pull", ""), "[git pull] ok");
}

#[test]
fn write_op_exact() {
    assert_eq!(
        compress_write_op("commit", "note\n  [main abc1234] Fix bug \n 1 file changed\n"),
        "[git commit] [main abc1234] Fix bug"
    );
    assert_eq!(compress_write_op("reset", "\n  \n  Unstaged changes  \nM\ta\n"), "[git reset] Unstaged changes");
    assert_eq!(compress_write_op("add", " \n\t\n"), "[git add] ok");
    assert_eq!(compress_write_op("mv", "] then [\n"), "[git mv] ] then [");
}

#[test]
fn branch_exact() {
    assert_eq!(
        compress_branch("  dev\n\n* main\n  feature/login\n"),
        "[branches: 3] current: main\n  dev\n  feature/login\n"
    );
    assert_eq!(compress_branch("  a\n"), "[branches: 1] current: (none)\n  a\n");
    assert_eq!(compress_branch(" \n\n"), "[branches] none");
    let many = format!("* * cur \n{}", rows(" b", 35));
    assert_eq!(
        compress_branch(&many),
        format!("[branches: 36] current: cur\n{}  … +5 more\n", listed("b", 30))
    );
}

#[test]
fn tag_exact() {
    assert_eq!(compress_tag("v0.1.0\n\n v0.2.0\n"), "[tags: 2]\n  v0.1.0\n   v0.2.0\n");
    assert_eq!(
        compress_tag(&rows("v", 31)),
        format!("[tags: 31]\n{}  … +1 more\n", listed("v", 30))
    );
}

#[test]
fn stash_exact() {
    assert_eq!(
        compress_stash("stash", "stash@{0}: WIP on main\nstash@{1}: WIP on dev\n"),
        "[stash: 2 entries]\n  stash@{0}: WIP on main\n  stash@{1}: WIP on dev\n"
    );
    assert_eq!(
        compress_stash("stash", &rows("stash@{", 21)),
        format!("[stash: 21 entries]\n{}  … +1 more\n", listed("stash@{", 20))
    );
    assert_eq!(compress_stash("stash", "  Saved working directory \nmore\n"), "[stash] Saved working directory");
    assert_eq!(compress_stash("stash", "\n \n"), "[stash] ok");
}

#[test]
fn merge_exact() {
    let conflict = "Auto-merging src/main.rs\nCONFLICT (content): Merge conflict in src/main.rs\n  Automatic merge failed; fix conflicts and then commit the result.\n";
    assert_eq!(
        compress_merge_like("merge", conflict),
        "[git merge] CONFLICTS (2)\n  CONFLICT (content): Merge conflict in src/main.rs\n  Automatic merge failed; fix conflicts and then commit the result.\n"
    );
    assert_eq!(
        compress_merge_like("merge", "Updating abc1234..def5678\nFast-forward\n src/main.rs | 5 +++++\n"),
        "[git merge] Updating abc1234..def5678 | Fast-forward |  src/main.rs | 5 +++++"
    );
    assert_eq!(
        compress_merge_like("rebase", "a\nb\n\nApplying: x\nc\nd\ne\nf\n"),
        "[git rebase] a | b | c | d | e"
    );
    assert_eq!(compress_merge_like("cherry-pick", "Auto-merging a\n Applying: b\n"), "[git cherry-pick] ok");
    assert_eq!(compress_merge_like("merge", " \n"), "[git merge] ok");
}

#[test]
fn checkout_exact() {
    assert_eq!(compress_checkout("switch", "\n  Switched to branch 'dev'  \nmore\n"), "[git switch] Switched to branch 'dev'");
    assert_eq!(compress_checkout("checkout", " "), "[git checkout] ok");
}

#[test]
fn remote_exact() {
    let raw = "origin\thttps://example.org/a.git (fetch)\norigin\thttps://example.org/a.git (push)\nup\thttps://example.org/b.git (fetch)\n";
    assert_eq!(
        compress_remote(raw),
        "[remotes: 2]\n  origin\thttps://example.org/a.git (fetch)\n  up\thttps://example.org/b.git (fetch)\n"
    );
    assert_eq!(compress_remote(" \n"), "[remotes] none");
    assert_eq!(compress_remote("origin\nupstream\n"), "origin\nupstream");
    let many: String = (0..31).map(|i| format!("r{i} (fetch)\n")).collect();
    let shown: String = (0..30).map(|i| format!("  r{i} (fetch)\n")).collect();
    assert_eq!(compress_remote(&many), format!("[remotes: 31]\n{shown}  … +1 more\n"));
}

#[test]
fn blame_exact() {
    let long = "é".repeat(121);
    let raw = format!("short\n{long}\n{}\n", "x".repeat(120));
    assert_eq!(
        compress_blame(&raw),
        format!("[blame: 3 lines]\nshort\n{} …\n{}\n", "é".repeat(120), "x".repeat(120))
    );
    assert_eq!(
        compress_blame(&rows("l", 82)),
        format!("[blame: 82 lines]\n{}  … +2 more lines\n", rows("l", 80))
    );
}

#[test]
fn clean_exact() {
    assert_eq!(
        compress_clean("Would remove a.txt\nRemoving tmp/\nother\n"),
        "[git clean] 2 items\n  Would remove a.txt\n  Removing tmp/\n"
    );
    assert_eq!(compress_clean("other\n"), "other");
    assert_eq!(
        compress_clean(&rows("Removing f", 33)),
        format!("[git clean] 33 items\n{}  … +3 more\n", listed("Removing f", 30))
    );
}

// ── cargo ──

#[test]
fn test_summary_exact() {
    let raw = "running 2 tests\ntest ok_test ... ok\ntest bad_test ... FAILED\n\nfailures:\n\n---- bad_test stdout ----\nthread 'bad_test' panicked at 'assertion failed: false'\n\nfailures:\n    bad_test\n\ntest result: FAILED. 1 passed; 1 failed; 0 ignored\n";
    assert_eq!(
        compress_test(raw),
        "[cargo test]\nrunning 2 tests\ntest bad_test ... FAILED\nfailures:\n---- bad_test stdout ----\nthread 'bad_test' panicked at 'assertion failed: false'\n\ntest result: FAILED. 1 passed; 1 failed; 0 ignored"
    );
    // A failure report that the output ends in stays open to the end.
    assert_eq!(
        compress_test("---- t stdout ----\nrunning x\nrunning x\n"),
        "[cargo test]\n---- t stdout ----\nrunning x\nrunning x"
    );
    assert_eq!(compress_test("running 1 test\nrunning 1 test\n"), "[cargo test]\nrunning 1 test");
}

#[test]
fn build_exact() {
    let raw = "   Compiling my-crate v0.1.0\nwarning: variable `x` is never used\nerror[E0308]: mismatched types\n  --> src/main.rs:5:10\nwarning: unused import\nerror: could not compile `my-crate`\nwarning: unused thing, Finished\n";
    assert_eq!(
        compress_build(raw),
        "   Compiling my-crate v0.1.0\nwarning: unused thing, Finished\n[errors: 2]\n  error[E0308]: mismatched types\n  error: could not compile `my-crate`\n[warnings: 1]\n  warning: variable `x` is never used\n"
    );
    let many = rows("warning: w", 12);
    assert_eq!(
        compress_build(&many),
        format!("[warnings: 12]\n{}  … +2 more\n", listed("warning: w", 10))
    );
    assert_eq!(compress_build("Compiling x\n"), "Compiling x");
    assert_eq!(compress_build("Compiling x v1\n"), "Compiling x v1\n");
    let errors = rows("error: e", 40);
    assert_eq!(compress_build(&errors), format!("[errors: 40]\n{}", listed("error: e", 40)));
}

#[test]
fn clippy_exact() {
    assert_eq!(
        compress_clippy("warning: a\n  --> src/main.rs:10:5\nerror: b\nwarning without colon\n"),
        "[clippy: 2 diagnostics]\n  warning: a\n  error: b\n"
    );
    assert_eq!(
        compress_clippy(&rows("error: e", 31)),
        format!("[clippy: 31 diagnostics]\n{}  … +1 more\n", listed("error: e", 30))
    );
}

#[test]
fn fmt_exact() {
    assert_eq!(
        compress_fmt("Diff in /src/main.rs\nWould reformat /src/lib.rs\n+code\n"),
        "[cargo fmt] 2 files need formatting\n  Diff in /src/main.rs\n  Would reformat /src/lib.rs\n"
    );
    assert_eq!(
        compress_fmt(&rows("Diff in f", 22)),
        format!("[cargo fmt] 22 files need formatting\n{}", listed("Diff in f", 20))
    );
    assert_eq!(compress_fmt(" \n"), "[cargo fmt] clean");
    assert_eq!(compress_fmt("error: boom\n"), "error: boom");
}

#[test]
fn run_exact() {
    let raw = "   Compiling x v0.1.0\n  Downloading y\n Fresh z\n    Finished `dev` profile in 1.0s\n     Running `target/debug/x`\nHello, world!\n\nresult: 42\n";
    assert_eq!(compress_run(raw), "Hello, world!\n\nresult: 42");
    assert_eq!(compress_run(""), "[cargo run] ok");
}

#[test]
fn bench_exact() {
    let raw = "running 2 tests\ntest a ... bench:      100 ns/iter (+/- 5)\ntest result: early\ntest b ... bench:      200 ns/iter (+/- 10)\n\ntest result: ok. 0 passed; 2 measured\n";
    assert_eq!(
        compress_bench(raw),
        "[cargo bench] 2 benchmarks\n  test a ... bench:      100 ns/iter (+/- 5)\n  test b ... bench:      200 ns/iter (+/- 10)\ntest result: ok. 0 passed; 2 measured\n"
    );
    assert_eq!(compress_bench("test a ... bench: 1\n"), "[cargo bench] 1 benchmarks\n  test a ... bench: 1\n");
    assert_eq!(compress_bench("test result: ok\n"), "test result: ok");
}

#[test]
fn doc_exact() {
    let raw = " Documenting a v0.1.0\n Documenting b v0.2.0\nwarning: missing docs\n    Finished `doc` profile in 2.0s\n";
    assert_eq!(
        compress_doc(raw),
        "[cargo doc] 2 crates\n[warnings: 1]\nFinished `doc` profile in 2.0s\n"
    );
    assert_eq!(compress_doc("  Finished a\n Finished b \n"), "Finished b\n");
    assert_eq!(compress_doc("  warning: x\n"), "[warnings: 1]\n");
    assert_eq!(compress_doc("nothing\n"), "nothing");
}

#[test]
fn dep_change_exact() {
    assert_eq!(
        compress_dep_change("add", "    Updating crates.io index\n      Adding serde v1.0 to dependencies\n             Features:\n             + derive\n  Downloaded x\n  Downloading y\n"),
        "[cargo add]\n  Adding serde v1.0 to dependencies\n  Features:\n  + derive\n"
    );
    assert_eq!(compress_dep_change("remove", "  Updating index\n\n"), "[cargo remove] ok");
    assert_eq!(
        compress_dep_change("add", &rows(" l", 12)),
        format!("[cargo add]\n{}", listed("l", 10))
    );
}

#[test]
fn update_exact() {
    let raw = "    Locking 3 packages\n    Updating serde v1.0.190 -> v1.0.193\n    Adding new-dep v0.1.0\n    Removing old v0.0.1\nnote: pass --verbose\n";
    assert_eq!(
        compress_update(raw),
        "[cargo update] 4 changes\n  Locking 3 packages\n  Updating serde v1.0.190 -> v1.0.193\n  Adding new-dep v0.1.0\n  Removing old v0.0.1\n"
    );
    assert_eq!(compress_update("note: nothing\n"), "note: nothing");
    assert_eq!(
        compress_update(&rows(" Adding a", 31)),
        format!("[cargo update] 31 changes\n{}  … +1 more\n", listed("Adding a", 30))
    );
}

#[test]
fn install_exact() {
    let raw = "   Compiling ripgrep v14.0.0\n    Finished `release` profile in 30.0s\n  Installing /home/user/.cargo/bin/rg\n   Installed package `ripgrep v14.0.0`\n";
    assert_eq!(
        compress_install(raw),
        "[cargo install] Installed package `ripgrep v14.0.0`\nFinished `release` profile in 30.0s\n"
    );
    assert_eq!(compress_install("  Replacing /bin/rg\n"), "[cargo install] Replacing /bin/rg\n");
    assert_eq!(compress_install(" Finished in 1s\n"), "[cargo install] ok\nFinished in 1s\n");
    assert_eq!(compress_install("error: no such crate\n"), "error: no such crate");
}

#[test]
fn publish_exact() {
    let raw = "   Packaging my-crate v0.1.0\n   Uploading my-crate v0.1.0\n    Uploaded my-crate v0.1.0\n a warning here\n   Published my-crate v0.1.0\n";
    assert_eq!(
        compress_publish(raw),
        "[cargo publish]\n  Uploading my-crate v0.1.0\n  Uploaded my-crate v0.1.0\n  a warning here\n  Published my-crate v0.1.0\n"
    );
    assert_eq!(compress_publish("Packaging only\n"), "Packaging only");
}

// ── python ──

#[test]
fn pytest_exact() {
    let raw = "===== test session starts =====\ncollected 3 items\n\ntest_math.py .F.\n\n===== FAILURES =====\n___ test_add ___\n    def test_add():\n>       assert 1 == 2\nE       assert 1 == 2\n\ntest_math.py:5: AssertionError\n===== short test summary info =====\nFAILED test_math.py::test_add - assert 1 == 2\nERROR test_other.py\n===== 1 failed, 2 passed in 0.12s =====\n";
    assert_eq!(
        compress_pytest(raw),
        "[pytest]\n===== FAILURES =====\n___ test_add ___\n    def test_add():\n>       assert 1 == 2\nE       assert 1 == 2\n\nFAILED test_math.py::test_add - assert 1 == 2\nERROR test_other.py\n===== 1 failed, 2 passed in 0.12s ====="
    );
}

#[test]
fn pytest_caps_a_failure_report() {
    let body = rows("detail ", 25);
    let raw = format!("___ t ___\n{body}=== end ===\nFAILED t\n");
    let kept: String = (0..20).map(|i| format!("detail {i}\n")).collect();
    assert_eq!(compress_pytest(&raw), format!("[pytest]\n___ t ___\n{kept}FAILED t"));
    // An empty line ends a report only behind two lines of it.
    assert_eq!(
        compress_pytest("___ t ___\n\nx\n\ny\nFAILED z\n"),
        "[pytest]\n___ t ___\n\nx\n\nFAILED z"
    );
}

#[test]
fn ruff_exact() {
    let raw = "src/a.py:1:1: F401 `os` imported but unused\n  src/b.pyi:2:5: E501 line too long\nhelp text\nFound 2 errors.\n";
    assert_eq!(
        compress_ruff(raw),
        "[ruff] Found 2 errors.\n  src/a.py:1:1: F401 `os` imported but unused\n  src/b.pyi:2:5: E501 line too long\n"
    );
    assert_eq!(compress_ruff("a.py:1: x\n"), "[ruff] 1 issues\n  a.py:1: x\n");
    assert_eq!(compress_ruff("All checks passed!\n"), "[ruff] All checks passed!\n");
    assert_eq!(compress_ruff("warning only\n"), "[ruff] 0 issues\n");
    assert_eq!(compress_ruff("\n"), "[ruff] clean");
    let many: String = (0..31).map(|i| format!("f.py:{i}: x\n")).collect();
    let shown: String = (0..30).map(|i| format!("  f.py:{i}: x\n")).collect();
    assert_eq!(compress_ruff(&many), format!("[ruff] 31 issues\n{shown}  … +1 more\n"));
}

#[test]
fn mypy_exact() {
    let raw = "a.py:1: error: Incompatible types\na.py:2: note: See docs\nFound 1 error in 1 file (checked 1 source file)\n";
    assert_eq!(
        compress_mypy(raw),
        "[mypy] 2 errors\n  a.py:1: error: Incompatible types\n  a.py:2: note: See docs\nFound 1 error in 1 file (checked 1 source file)\n"
    );
    assert_eq!(
        compress_mypy("  Success: no issues found in 3 source files\n"),
        "[mypy] Success: no issues found in 3 source files"
    );
    assert_eq!(compress_mypy("a.py:1: error: x\n"), "[mypy] 1 errors\n  a.py:1: error: x\n");
    assert_eq!(compress_mypy("usage: mypy\n"), "usage: mypy");
}

#[test]
fn pip_install_exact() {
    let raw = "Requirement already satisfied: six\nInstalling collected packages: requests\nSuccessfully installed requests-2.31.0\n";
    assert_eq!(
        compress_pip_install(raw),
        "[pip] Successfully installed requests-2.31.0\n[pip] 1 already satisfied\n"
    );
    assert_eq!(
        compress_pip_install(" Installed 2 packages in 5ms\nInstalling x (Already installed)\n"),
        "[pip] installed 1\n  Installed 2 packages in 5ms\n[pip] 1 already satisfied\n"
    );
    assert_eq!(
        compress_pip_install(&rows("Installing p", 21)),
        format!("[pip] installed 21\n{}", listed("Installing p", 20))
    );
    assert_eq!(compress_pip_install("ERROR: no\n"), "ERROR: no");
}

#[test]
fn pip_list_exact() {
    let raw = "Package    Version\n---------- -------\nrequests   2.31.0\n\nsix        1.16.0\n";
    assert_eq!(
        compress_pip_list(raw),
        "[packages: 2]\n  requests   2.31.0\n  six        1.16.0\n"
    );
    assert_eq!(compress_pip_list("Package\n"), "[packages: 0]\n");
    assert_eq!(compress_pip_list(""), "[pip list] empty");
    assert_eq!(
        compress_pip_list(&rows("p", 51)),
        format!("[packages: 51]\n{}  … +1 more\n", listed("p", 50))
    );
}

#[test]
fn pip_outdated_exact() {
    assert_eq!(
        compress_pip_outdated("Package Version Latest\n------- ------- ------\nsix 1.0 1.16\n"),
        "[outdated: 1]\n  six 1.0 1.16\n"
    );
    assert_eq!(compress_pip_outdated("Package Version\n---\n"), "[pip] all up to date");
    assert_eq!(
        compress_pip_outdated(&rows("p", 31)),
        format!("[outdated: 31]\n{}  … +1 more\n", listed("p", 30))
    );
}

#[test]
fn uv_sync_exact() {
    assert_eq!(compress_uv_sync(""), "[uv sync] +0 -0\n");
    assert_eq!(
        compress_uv_sync("Resolved 3 packages\nAudited 3 packages in 1ms\nInstalled 1 package\nUninstalled 2 packages\n - a\n"),
        "[uv sync] Audited 3 packages in 1ms | +1 -2\n"
    );
    let raw = format!("Resolved 11 packages\n{}", rows(" + p", 10));
    assert_eq!(
        compress_uv_sync(&raw),
        format!("[uv sync] Resolved 11 packages | +10 -0\n{}", truncate(&raw))
    );
    let same = "same\n".repeat(11);
    assert_eq!(compress_uv_sync(&same), "[uv sync] +0 -0\nsame  (×11)");
}

#[test]
fn uv_lock_exact() {
    assert_eq!(
        compress_uv_lock("Using CPython\n  Resolved 12 packages in 3ms \nResolved again\n"),
        "[uv lock] Resolved 12 packages in 3ms"
    );
    assert_eq!(compress_uv_lock("Audited 1\n"), "Audited 1");
}

#[test]
fn uv_dep_exact() {
    assert_eq!(
        compress_uv_dep("add", "Resolved 5 packages in 1ms\n + requests==2.31.0\nUpdated x\nnoise\n"),
        "[uv add] Resolved 5 packages in 1ms\n  + requests==2.31.0\n  Updated x\n"
    );
    assert_eq!(compress_uv_dep("remove", " - six==1.16\n"), "[uv remove] \n  - six==1.16\n");
    assert_eq!(compress_uv_dep("add", ""), "[uv add] \n");
    assert_eq!(
        compress_uv_dep("add", &rows("+ p", 21)),
        format!("[uv add] \n{}  … +1 more\n", listed("+ p", 20))
    );
}

// ── docker ──

#[test]
fn tables_exact() {
    assert_eq!(compress_ps("ID  IMAGE\nabc nginx\ndef redis\n"), "[containers: 2]\nID  IMAGE\nabc nginx\ndef redis\n");
    assert_eq!(compress_ps("ID\n"), "[containers: 0]\nID\n");
    assert_eq!(compress_ps("\n"), "[containers: 0]\n\n");
    assert_eq!(compress_images("REPO\nnginx\n"), "[images: 1]\nREPO\nnginx\n");
    let raw = format!("H\n{}", rows("c", 35));
    assert_eq!(
        compress_ps(&raw),
        format!("[containers: 35]\nH\n{}  … +5 more\n", rows("c", 30))
    );
    assert_eq!(
        compress_images(&format!("H\n{}", rows("i", 30))),
        format!("[images: 30]\nH\n{}", rows("i", 30))
    );
}

// ── grep ──

#[test]
fn grep_exact() {
    assert_eq!(
        compress_grep("no colon here\nsrc/a.rs:1:match\n:empty file\nsrc/a.rs:2:again\n"),
        "[grep] 4 matches in 2 files\n\n── src/a.rs (2 hits)\n  1:match\n  2:again\n\n──  (1 hits)\n  empty file\n"
    );
    let many: String = (0..12).map(|i| format!("f:{i}\n")).collect();
    let shown: String = (0..10).map(|i| format!("  {i}\n")).collect();
    assert_eq!(
        compress_grep(&many),
        format!("[grep] 12 matches in 1 files\n\n── f (12 hits)\n{shown}  … +2 more\n")
    );
    let long = format!("f:{}", "é".repeat(201));
    assert_eq!(
        compress_grep(&long),
        format!("[grep] 1 matches in 1 files\n\n── f (1 hits)\n  {}\n", "é".repeat(200))
    );
    assert_eq!(compress_grep("plain\n"), "[grep] 1 matches in 0 files\n");
    // A file that comes back later has one group still, where it first
    // stood.
    assert_eq!(
        compress_grep("z:1\na:2\nz:3\nm:4\na:5\n"),
        "[grep] 5 matches in 3 files\n\n── z (2 hits)\n  1\n  3\n\n── a (2 hits)\n  2\n  5\n\n── m (1 hits)\n  4\n"
    );
}
