use vstd::prelude::*;

verus! {

/// An invocation of `git`: the arguments that follow the program name.
#[derive(Clone, Debug, PartialEq, Eq)]
pub struct GitCmd {
    pub args: Vec<String>,
}

pub open spec fn views_of(v: Seq<String>) -> Seq<Seq<char>> {
    v.map_values(|a: String| a@)
}

impl View for GitCmd {
    type V = Seq<Seq<char>>;

    open spec fn view(&self) -> Seq<Seq<char>> {
        views_of(self.args@)
    }
}

/// The text shown for a command: the program name followed by each argument, separated by spaces.
pub open spec fn display_of(args: Seq<Seq<char>>) -> Seq<char>
    decreases args.len(),
{
    if args.len() == 0 {
        "git"@
    } else {
        display_of(args.drop_last()) + " "@ + args.last()
    }
}

impl GitCmd {
    pub fn new() -> (r: GitCmd)
        ensures
            r@ == Seq::<Seq<char>>::empty(),
    {
        let r = GitCmd { args: Vec::new() };
        assert(r@ =~= Seq::<Seq<char>>::empty());
        r
    }

    pub fn arg(self, a: &str) -> (r: GitCmd)
        ensures
            r@ == self@.push(a@),
    {
        let mut args = self.args;
        args.push(a.to_owned());
        let r = GitCmd { args };
        assert(r@ =~= self@.push(a@));
        r
    }

    pub fn args(self, extra: &[String]) -> (r: GitCmd)
        ensures
            r@ == self@ + views_of(extra@),
    {
        let mut args = self.args;
        let ghost start = views_of(args@);
        let mut i: usize = 0;
        while i < extra.len()
            invariant
                i <= extra@.len(),
                views_of(args@) =~= start + views_of(extra@.subrange(0, i as int)),
            decreases extra@.len() - i,
        {
            let ghost before = args@;
            args.push(extra[i].clone());
            proof {
                assert(args@ == before.push(extra@[i as int]));
                assert(views_of(args@) =~= views_of(before).push(extra@[i as int]@));
                assert(extra@.subrange(0, i as int + 1) =~= extra@.subrange(0, i as int).push(
                    extra@[i as int],
                ));
                assert(views_of(extra@.subrange(0, i as int + 1)) =~= views_of(
                    extra@.subrange(0, i as int),
                ).push(extra@[i as int]@));
            }
            i = i + 1;
        }
        assert(extra@.subrange(0, i as int) =~= extra@);
        GitCmd { args }
    }

    /// The command line as shown to the user while and after it runs.
    pub fn display(&self) -> (r: String)
        ensures
            r@ == display_of(self@),
    {
        let mut s = "git".to_owned();
        let mut i: usize = 0;
        while i < self.args.len()
            invariant
                i <= self@.len(),
                s@ == display_of(self@.subrange(0, i as int)),
            decreases self@.len() - i,
        {
            s.append(" ");
            s.append(self.args[i].as_str());
            proof {
                let sub = self@.subrange(0, i as int + 1);
                assert(sub.drop_last() =~= self@.subrange(0, i as int));
            }
            i = i + 1;
        }
        assert(self@.subrange(0, i as int) =~= self@);
        s
    }
}

pub fn status() -> (r: GitCmd)
    ensures
        r@ == seq!["status"@, "--porcelain"@, "--branch"@],
{
    GitCmd::new().arg("status").arg("--porcelain").arg("--branch")
}

pub fn status_simple() -> (r: GitCmd)
    ensures
        r@ == seq!["-c"@, "color.status=always"@, "status"@],
{
    GitCmd::new().arg("-c").arg("color.status=always").arg("status")
}

pub fn diff_unstaged() -> (r: GitCmd)
    ensures
        r@ == seq!["diff"@],
{
    GitCmd::new().arg("diff")
}

pub fn show(args: &[String]) -> (r: GitCmd)
    ensures
        r@ == seq!["show"@] + views_of(args@),
{
    GitCmd::new().arg("show").args(args)
}

pub fn show_summary(args: &[String]) -> (r: GitCmd)
    ensures
        r@ == seq!["show"@, "--summary"@, "--decorate"@, "--color"@] + views_of(args@),
{
    GitCmd::new().arg("show").arg("--summary").arg("--decorate").arg("--color").args(args)
}

pub fn diff(args: &[String]) -> (r: GitCmd)
    ensures
        r@ == seq!["diff"@] + views_of(args@),
{
    GitCmd::new().arg("diff").args(args)
}

pub fn diff_staged() -> (r: GitCmd)
    ensures
        r@ == seq!["diff"@, "--staged"@],
{
    GitCmd::new().arg("diff").arg("--staged")
}

pub fn log_recent() -> (r: GitCmd)
    ensures
        r@ == seq!["log"@, "-n"@, "5"@, "--oneline"@, "--decorate"@, "--color"@],
{
    GitCmd::new().arg("log").arg("-n").arg("5").arg("--oneline").arg("--decorate").arg("--color")
}

pub fn log(args: &[String]) -> (r: GitCmd)
    ensures
        r@ == seq!["log"@, "--oneline"@, "--decorate"@, "--color"@] + views_of(args@),
{
    GitCmd::new().arg("log").arg("--oneline").arg("--decorate").arg("--color").args(args)
}

pub fn show_refs() -> (r: GitCmd)
    ensures
        r@ == seq![
            "for-each-ref"@,
            "--sort"@,
            "-creatordate"@,
            "--format"@,
            "%(refname) %(upstream) %(subject)"@,
            "refs/heads"@,
        ],
{
    GitCmd::new().arg("for-each-ref").arg("--sort").arg("-creatordate").arg("--format").arg(
        "%(refname) %(upstream) %(subject)",
    ).arg("refs/heads")
}

pub fn stage_file_cmd(file: &str) -> (r: GitCmd)
    ensures
        r@ == seq!["add"@, file@],
{
    GitCmd::new().arg("add").arg(file)
}

pub fn stage_patch_cmd() -> (r: GitCmd)
    ensures
        r@ == seq!["apply"@, "--cached"@],
{
    GitCmd::new().arg("apply").arg("--cached")
}

pub fn unstage_file_cmd(file: &str) -> (r: GitCmd)
    ensures
        r@ == seq!["restore"@, "--staged"@, file@],
{
    GitCmd::new().arg("restore").arg("--staged").arg(file)
}

pub fn unstage_patch_cmd() -> (r: GitCmd)
    ensures
        r@ == seq!["apply"@, "--cached"@, "--reverse"@],
{
    GitCmd::new().arg("apply").arg("--cached").arg("--reverse")
}

pub fn discard_unstaged_patch_cmd() -> (r: GitCmd)
    ensures
        r@ == seq!["apply"@, "--reverse"@],
{
    GitCmd::new().arg("apply").arg("--reverse")
}

pub fn commit_cmd() -> (r: GitCmd)
    ensures
        r@ == seq!["commit"@],
{
    GitCmd::new().arg("commit")
}

pub fn commit_amend_cmd() -> (r: GitCmd)
    ensures
        r@ == seq!["commit"@, "--amend"@],
{
    GitCmd::new().arg("commit").arg("--amend")
}

pub fn commit_fixup_cmd(reference: &str) -> (r: GitCmd)
    ensures
        r@ == seq!["commit"@, "--fixup"@, reference@],
{
    GitCmd::new().arg("commit").arg("--fixup").arg(reference)
}

pub fn push_cmd() -> (r: GitCmd)
    ensures
        r@ == seq!["push"@],
{
    GitCmd::new().arg("push")
}

pub fn pull_cmd() -> (r: GitCmd)
    ensures
        r@ == seq!["pull"@],
{
    GitCmd::new().arg("pull")
}

pub fn fetch_all_cmd() -> (r: GitCmd)
    ensures
        r@ == seq!["fetch"@, "--all"@],
{
    GitCmd::new().arg("fetch").arg("--all")
}

pub fn rebase_interactive_cmd(reference: &str) -> (r: GitCmd)
    ensures
        r@ == seq!["rebase"@, "-i"@, "--autostash"@, reference@],
{
    GitCmd::new().arg("rebase").arg("-i").arg("--autostash").arg(reference)
}

pub fn rebase_autosquash_cmd(reference: &str) -> (r: GitCmd)
    ensures
        r@ == seq!["rebase"@, "-i"@, "--autosquash"@, "--keep-empty"@, "--autostash"@, reference@],
{
    GitCmd::new().arg("rebase").arg("-i").arg("--autosquash").arg("--keep-empty").arg(
        "--autostash",
    ).arg(reference)
}

pub fn rebase_continue_cmd() -> (r: GitCmd)
    ensures
        r@ == seq!["rebase"@, "--continue"@],
{
    GitCmd::new().arg("rebase").arg("--continue")
}

pub fn rebase_abort_cmd() -> (r: GitCmd)
    ensures
        r@ == seq!["rebase"@, "--abort"@],
{
    GitCmd::new().arg("rebase").arg("--abort")
}

pub fn checkout_file_cmd(file: &str) -> (r: GitCmd)
    ensures
        r@ == seq!["checkout"@, "--"@, file@],
{
    GitCmd::new().arg("checkout").arg("--").arg(file)
}

pub fn checkout_ref_cmd(reference: &str) -> (r: GitCmd)
    ensures
        r@ == seq!["checkout"@, reference@],
{
    GitCmd::new().arg("checkout").arg(reference)
}

pub fn checkout_new_branch_cmd(name: &str) -> (r: GitCmd)
    ensures
        r@ == seq!["checkout"@, "-b"@, name@],
{
    GitCmd::new().arg("checkout").arg("-b").arg(name)
}


/// `ESC [ m`, the bare colour reset that git writes.
pub open spec fn is_bare_reset(s: Seq<u8>, i: int) -> bool {
    0 <= i && i + 3 <= s.len() && s[i] == 0x1bu8 && s[i + 1] == 0x5bu8 && s[i + 2] == 0x6du8
}

/// `s` with each bare colour reset `ESC [ m` written out as `ESC [ 0 m`, scanning from the left.
pub open spec fn with_full_resets(s: Seq<u8>) -> Seq<u8>
    decreases s.len(),
{
    if s.len() == 0 {
        s
    } else if is_bare_reset(s, 0) {
        seq![0x1bu8, 0x5bu8, 0x30u8, 0x6du8] + with_full_resets(s.subrange(3, s.len() as int))
    } else {
        seq![s[0]] + with_full_resets(s.subrange(1, s.len() as int))
    }
}

/// Rewrites the colour resets in the output of `status_simple`, `show_summary`,
/// `log_recent` and `log` so that the terminal renderer reads them.
pub fn reset_color_codes(out: &[u8]) -> (r: Vec<u8>)
    ensures
        r@ == with_full_resets(out@),
{
    let mut r: Vec<u8> = Vec::new();
    let n = out.len();
    let mut i: usize = 0;
    assert(out@.subrange(0, n as int) =~= out@);
    assert(r@ + out@ =~= out@);
    while i < n
        invariant
            n == out@.len(),
            i <= n,
            r@ + with_full_resets(out@.subrange(i as int, n as int)) == with_full_resets(out@),
        decreases n - i,
    {
        let ghost rest = out@.subrange(i as int, n as int);
        if n - i >= 3 && out[i] == 0x1b && out[i + 1] == 0x5b && out[i + 2] == 0x6d {
            assert(is_bare_reset(rest, 0));
            assert(rest.subrange(3, rest.len() as int) =~= out@.subrange(i as int + 3, n as int));
            let ghost before = r@;
            r.push(0x1b);
            r.push(0x5b);
            r.push(0x30);
            r.push(0x6d);
            assert(r@ =~= before + seq![0x1bu8, 0x5bu8, 0x30u8, 0x6du8]);
            assert(before + with_full_resets(rest) =~= r@ + with_full_resets(
                out@.subrange(i as int + 3, n as int),
            ));
            i = i + 3;
        } else {
            assert(!is_bare_reset(rest, 0));
            assert(rest.subrange(1, rest.len() as int) =~= out@.subrange(i as int + 1, n as int));
            let ghost before = r@;
            r.push(out[i]);
            assert(before + with_full_resets(rest) =~= r@ + with_full_resets(
                out@.subrange(i as int + 1, n as int),
            ));
            i = i + 1;
        }
    }
    assert(r@ =~= r@ + with_full_resets(out@.subrange(n as int, n as int)));
    r
}

} // verus!
