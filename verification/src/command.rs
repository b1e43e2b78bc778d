//! One command to launch, and the words of the two that depend on the
//! options: `cargo new` and the commit that records it.

use crate::options::{Options, OptionsView};
use crate::text::{join, join_with, lemma_join_ends, lemma_join_front};
use tap::Tap;
use vstd::prelude::*;

verus! {

/// A program, its arguments in order, and the directory to run it in; `None`
/// stands for the directory of the caller.
#[derive(Clone, Debug, PartialEq, Eq)]
pub struct Invocation {
    pub program: String,
    pub args: Vec<String>,
    pub dir: Option<String>,
}

/// An invocation as plain values.
pub struct InvocationView {
    pub program: Seq<char>,
    pub args: Seq<Seq<char>>,
    pub dir: Option<Seq<char>>,
}

impl View for Invocation {
    type V = InvocationView;

    open spec fn view(&self) -> InvocationView {
        InvocationView {
            program: self.program@,
            args: self.args.deep_view(),
            dir: self.dir.deep_view(),
        }
    }
}

impl DeepView for Invocation {
    type V = InvocationView;

    open spec fn deep_view(&self) -> InvocationView {
        self@
    }
}

/// The arguments of `cargo new`: the subcommand, the template flags that were
/// given, the name with its flag if there is one, and the path at the end.
pub open spec fn scaffold_args(options: OptionsView) -> Seq<Seq<char>> {
    seq!["new"@] + (if options.bin {
        seq!["--bin"@]
    } else {
        Seq::empty()
    }) + (if options.lib {
        seq!["--lib"@]
    } else {
        Seq::empty()
    }) + (match options.name {
        Some(name) => seq!["--name"@, name],
        None => Seq::empty(),
    }) + seq![options.path]
}

/// The word that opens the message of the scaffold commit.
pub open spec fn scaffold_label() -> Seq<char> {
    "bootstrap: cargo"@
}

/// The message of the scaffold commit for the given arguments of
/// `cargo new`: the label and then every argument, a single space between
/// each two.
pub open spec fn scaffold_message(args: Seq<Seq<char>>) -> Seq<char> {
    join(seq![scaffold_label()] + args, seq![' '])
}

/// The arguments of `cargo new` keep their places: the subcommand comes
/// first and the path last, a template flag stands right after the
/// subcommand, and the name right before the path, behind its flag.
pub proof fn lemma_scaffold_args_order(options: OptionsView)
    requires
        options.wf(),
    ensures
        ({
            let args = scaffold_args(options);
            let templates: int = if options.bin || options.lib {
                1
            } else {
                0
            };
            let names: int = if options.name is Some {
                2
            } else {
                0
            };
            &&& args.len() == 2 + templates + names
            &&& args[0] == "new"@
            &&& args.last() == options.path
            &&& options.bin ==> args[1] == "--bin"@
            &&& options.lib ==> args[1] == "--lib"@
            &&& options.name matches Some(name) ==> args[args.len() - 3] == "--name"@
                && args[args.len() - 2] == name
        }),
{
}

/// The message of the scaffold commit is the label and, after a space each,
/// every argument of `cargo new` in order; it ends with the last of them.
pub proof fn lemma_scaffold_message_spelled_out(args: Seq<Seq<char>>)
    ensures
        scaffold_message(args) == if args.len() == 0 {
            scaffold_label()
        } else {
            scaffold_label() + seq![' '] + join(args, seq![' '])
        },
        scaffold_label().is_prefix_of(scaffold_message(args)),
        args.len() > 0 ==> args.last().is_suffix_of(scaffold_message(args)),
{
    let words = seq![scaffold_label()] + args;
    lemma_join_ends(words, seq![' ']);
    if args.len() > 0 {
        lemma_join_front(words, seq![' ']);
        assert(words.skip(1) =~= args);
        assert(words.last() == args.last());
    }
}

/// Appends one word.
pub(crate) fn push_word(words: &mut Vec<String>, word: &str)
    ensures
        final(words).deep_view() == old(words).deep_view().push(word@),
{
    words.push(word.to_owned());
    assert(words.deep_view() =~= old(words).deep_view().push(word@));
}

/// Puts the label in front of the words.
fn put_label_first(words: &mut Vec<String>)
    ensures
        final(words).deep_view() == seq![scaffold_label()] + old(words).deep_view(),
{
    words.insert(0, "bootstrap: cargo".to_owned());
    assert(words.deep_view() =~= seq![scaffold_label()] + old(words).deep_view());
}

/// Calls `tap::Tap::tap_mut` on the vector, with `put_label_first` as the
/// effect.
///
/// Trusted: `tap_mut` runs the effect once on the value it is called on and
/// hands that value back, so what comes out is what `put_label_first` left.
#[verifier::external_body]
fn labelled(words: Vec<String>) -> (labelled: Vec<String>)
    ensures
        labelled.deep_view() == seq![scaffold_label()] + words.deep_view(),
{
    words.tap_mut(|it| put_label_first(it))
}

/// The message of the commit that records the scaffold: it spells out the
/// `cargo new` that made it.
pub fn commit_message(scaffold_args: Vec<String>) -> (message: String)
    ensures
        message@ == scaffold_message(scaffold_args.deep_view()),
{
    proof {
        reveal_strlit(" ");
        assert(" "@ =~= seq![' ']);
    }
    join_with(labelled(scaffold_args), " ")
}

impl Options {
    /// The arguments to launch `cargo` with, in order.
    pub fn scaffold_args(&self) -> (args: Vec<String>)
        ensures
            args.deep_view() == scaffold_args(self@),
    {
        let mut args: Vec<String> = Vec::new();
        push_word(&mut args, "new");
        if self.bin() {
            push_word(&mut args, "--bin");
        }
        if self.lib() {
            push_word(&mut args, "--lib");
        }
        match self.name() {
            Some(name) => {
                push_word(&mut args, "--name");
                push_word(&mut args, name.as_str());
            },
            None => {},
        }
        push_word(&mut args, self.path().as_str());
        assert(args.deep_view() =~= scaffold_args(self@));
        args
    }
}

} // verus!
