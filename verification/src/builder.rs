//! Building the argument list of a request: every command renders its
//! parameters into an ordered list of strings, one contributor per
//! flag, in the order the command declares them.

use crate::scan::dec_digits;
use crate::scan::dec_u64;
use vstd::prelude::*;
use vstd::string::StringExecFns;

verus! {

/// The strings a repeated flag contributes: the option before each
/// non-empty item, empty items skipped.
pub open spec fn repeat_contrib(option: Seq<char>, items: Seq<Seq<char>>) -> Seq<Seq<char>>
    decreases items.len(),
{
    if items.len() == 0 {
        Seq::empty()
    } else {
        (if items[0].len() == 0 {
            Seq::empty()
        } else {
            seq![option, items[0]]
        }) + repeat_contrib(option, items.drop_first())
    }
}

/// One more item extends a repeated flag's contribution on the right.
pub proof fn lemma_repeat_push(option: Seq<char>, items: Seq<Seq<char>>, x: Seq<char>)
    ensures
        repeat_contrib(option, items.push(x)) =~= repeat_contrib(option, items) + (if x.len()
            == 0 {
            Seq::<Seq<char>>::empty()
        } else {
            seq![option, x]
        }),
    decreases items.len(),
{
    let cx: Seq<Seq<char>> = if x.len() == 0 {
        Seq::empty()
    } else {
        seq![option, x]
    };
    if items.len() == 0 {
        assert(items.push(x).drop_first() =~= Seq::<Seq<char>>::empty());
        assert(items.push(x)[0] == x);
        assert(repeat_contrib(option, Seq::<Seq<char>>::empty()) =~= Seq::<Seq<char>>::empty());
        assert(repeat_contrib(option, items.push(x)) =~= cx);
        assert(repeat_contrib(option, items) =~= Seq::<Seq<char>>::empty());
    } else {
        let c0: Seq<Seq<char>> = if items[0].len() == 0 {
            Seq::empty()
        } else {
            seq![option, items[0]]
        };
        lemma_repeat_push(option, items.drop_first(), x);
        assert(items.push(x).drop_first() =~= items.drop_first().push(x));
        assert(items.push(x)[0] == items[0]);
        assert(repeat_contrib(option, items.push(x)) =~= c0 + (repeat_contrib(
            option,
            items.drop_first(),
        ) + cx));
        assert(c0 + (repeat_contrib(option, items.drop_first()) + cx) =~= (c0 + repeat_contrib(
            option,
            items.drop_first(),
        )) + cx);
    }
}

/// The strings a positional-argument list contributes: the non-empty
/// items, in order, without any flag.
pub open spec fn positional_contrib(items: Seq<Seq<char>>) -> Seq<Seq<char>>
    decreases items.len(),
{
    if items.len() == 0 {
        Seq::empty()
    } else {
        (if items[0].len() == 0 {
            Seq::empty()
        } else {
            seq![items[0]]
        }) + positional_contrib(items.drop_first())
    }
}

/// One more item extends a positional list's contribution on the
/// right.
pub proof fn lemma_positional_push(items: Seq<Seq<char>>, x: Seq<char>)
    ensures
        positional_contrib(items.push(x)) =~= positional_contrib(items) + (if x.len() == 0 {
            Seq::<Seq<char>>::empty()
        } else {
            seq![x]
        }),
    decreases items.len(),
{
    let cx: Seq<Seq<char>> = if x.len() == 0 {
        Seq::empty()
    } else {
        seq![x]
    };
    if items.len() == 0 {
        assert(items.push(x).drop_first() =~= Seq::<Seq<char>>::empty());
        assert(items.push(x)[0] == x);
        assert(positional_contrib(Seq::<Seq<char>>::empty()) =~= Seq::<Seq<char>>::empty());
        assert(positional_contrib(items.push(x)) =~= cx);
        assert(positional_contrib(items) =~= Seq::<Seq<char>>::empty());
    } else {
        let c0: Seq<Seq<char>> = if items[0].len() == 0 {
            Seq::empty()
        } else {
            seq![items[0]]
        };
        lemma_positional_push(items.drop_first(), x);
        assert(items.push(x).drop_first() =~= items.drop_first().push(x));
        assert(items.push(x)[0] == items[0]);
        assert(positional_contrib(items.push(x)) =~= c0 + (positional_contrib(items.drop_first())
            + cx));
        assert(c0 + (positional_contrib(items.drop_first()) + cx) =~= (c0 + positional_contrib(
            items.drop_first(),
        )) + cx);
    }
}

/// A value that knows how to render itself into a request's argument
/// list under a given option: a boolean flag appears or not, an
/// optional number is rendered or omitted, a string appears with its
/// option when non-empty, a string list repeats its option per item.
pub trait MkArg {
    /// The argument strings this value contributes for the option.
    spec fn contributes(&self, option: Seq<char>) -> Seq<Seq<char>>;

    /// Append the contribution to an argument list, in order.
    fn mk(&self, option: &str, args: &mut Vec<String>)
        ensures
            final(args).deep_view() == old(args).deep_view() + self.contributes(option@),
    ;
}

impl MkArg for bool {
    open spec fn contributes(&self, option: Seq<char>) -> Seq<Seq<char>> {
        if *self {
            seq![option]
        } else {
            Seq::empty()
        }
    }

    fn mk(&self, option: &str, args: &mut Vec<String>) {
        if *self {
            args.push(String::from_str(option));
            proof {
                assert(args.deep_view() =~~= old(args).deep_view() + seq![option@]);
            }
        } else {
            proof {
                assert(args.deep_view() =~~= old(args).deep_view() + Seq::<Seq<char>>::empty());
            }
        }
    }
}

impl MkArg for u32 {
    open spec fn contributes(&self, option: Seq<char>) -> Seq<Seq<char>> {
        seq![option, dec_digits(*self as int)]
    }

    fn mk(&self, option: &str, args: &mut Vec<String>) {
        args.push(String::from_str(option));
        args.push(dec_u64(*self as u64));
        proof {
            assert(args.deep_view() =~~= old(args).deep_view() + seq![
                option@,
                dec_digits(*self as int),
            ]);
        }
    }
}

impl MkArg for Option<u32> {
    open spec fn contributes(&self, option: Seq<char>) -> Seq<Seq<char>> {
        match *self {
            Some(x) => seq![option, dec_digits(x as int)],
            None => Seq::empty(),
        }
    }

    fn mk(&self, option: &str, args: &mut Vec<String>) {
        match self {
            Some(x) => {
                args.push(String::from_str(option));
                args.push(dec_u64(*x as u64));
                proof {
                    assert(args.deep_view() =~~= old(args).deep_view() + seq![
                        option@,
                        dec_digits(*x as int),
                    ]);
                }
            },
            None => {
                proof {
                    assert(args.deep_view() =~~= old(args).deep_view()
                        + Seq::<Seq<char>>::empty());
                }
            },
        }
    }
}

impl MkArg for Option<u8> {
    open spec fn contributes(&self, option: Seq<char>) -> Seq<Seq<char>> {
        match *self {
            Some(x) => seq![option, dec_digits(x as int)],
            None => Seq::empty(),
        }
    }

    fn mk(&self, option: &str, args: &mut Vec<String>) {
        match self {
            Some(x) => {
                args.push(String::from_str(option));
                args.push(dec_u64(*x as u64));
                proof {
                    assert(args.deep_view() =~~= old(args).deep_view() + seq![
                        option@,
                        dec_digits(*x as int),
                    ]);
                }
            },
            None => {
                proof {
                    assert(args.deep_view() =~~= old(args).deep_view()
                        + Seq::<Seq<char>>::empty());
                }
            },
        }
    }
}

impl<'a> MkArg for &'a str {
    open spec fn contributes(&self, option: Seq<char>) -> Seq<Seq<char>> {
        if self@.len() == 0 {
            Seq::empty()
        } else {
            seq![option, self@]
        }
    }

    fn mk(&self, option: &str, args: &mut Vec<String>) {
        if !self.is_empty() {
            args.push(String::from_str(option));
            args.push(String::from_str(self));
            proof {
                assert(args.deep_view() =~~= old(args).deep_view() + seq![option@, self@]);
            }
        } else {
            proof {
                assert(args.deep_view() =~~= old(args).deep_view() + Seq::<Seq<char>>::empty());
            }
        }
    }
}

impl<'a> MkArg for &'a [&'a str] {
    open spec fn contributes(&self, option: Seq<char>) -> Seq<Seq<char>> {
        repeat_contrib(option, self.deep_view())
    }

    fn mk(&self, option: &str, args: &mut Vec<String>) {
        let ghost items = self.deep_view();
        let mut i: usize = 0;
        while i < self.len()
            invariant
                0 <= i <= self@.len(),
                items == self.deep_view(),
                items.len() == self@.len(),
                args.deep_view() == old(args).deep_view() + repeat_contrib(
                    option@,
                    items.take(i as int),
                ),
            decreases self@.len() - i,
        {
            proof {
                assert(items[i as int] =~= self@[i as int]@);
                lemma_repeat_push(option@, items.take(i as int), items[i as int]);
                assert(items.take(i + 1 as int) =~= items.take(i as int).push(items[i as int]));
            }
            let ghost before = args.deep_view();
            let v = self[i];
            proof {
                assert(v@ == items[i as int]);
            }
            if !v.is_empty() {
                args.push(String::from_str(option));
                args.push(String::from_str(v));
                proof {
                    assert(args.deep_view() =~~= before + seq![option@, items[i as int]]);
                    assert(old(args).deep_view() + (repeat_contrib(option@, items.take(i as int))
                        + seq![option@, items[i as int]]) =~= (old(args).deep_view()
                        + repeat_contrib(option@, items.take(i as int))) + seq![
                        option@,
                        items[i as int],
                    ]);
                    assert(args.deep_view() == old(args).deep_view() + repeat_contrib(
                        option@,
                        items.take(i + 1 as int),
                    ));
                }
            } else {
                proof {
                    assert(repeat_contrib(option@, items.take(i + 1 as int)) =~= repeat_contrib(
                        option@,
                        items.take(i as int),
                    ));
                }
            }
            i = i + 1;
        }
        proof {
            assert(items.take(self@.len() as int) =~= items);
        }
    }
}

/// Append the non-empty positional arguments to an argument list.
pub fn push_positionals(args: &mut Vec<String>, items: &[&str])
    ensures
        final(args).deep_view() == old(args).deep_view() + positional_contrib(items.deep_view()),
{
    let ghost view = items.deep_view();
    let mut i: usize = 0;
    while i < items.len()
        invariant
            0 <= i <= items@.len(),
            view == items.deep_view(),
            view.len() == items@.len(),
            args.deep_view() == old(args).deep_view() + positional_contrib(view.take(i as int)),
        decreases items@.len() - i,
    {
        proof {
            assert(view[i as int] =~= items@[i as int]@);
            lemma_positional_push(view.take(i as int), view[i as int]);
            assert(view.take(i + 1 as int) =~= view.take(i as int).push(view[i as int]));
        }
        let ghost before = args.deep_view();
        let v = items[i];
        proof {
            assert(v@ == view[i as int]);
        }
        if !v.is_empty() {
            args.push(String::from_str(v));
            proof {
                assert(args.deep_view() =~~= before + seq![view[i as int]]);
                assert(old(args).deep_view() + (positional_contrib(view.take(i as int)) + seq![
                    view[i as int],
                ]) =~= (old(args).deep_view() + positional_contrib(view.take(i as int))) + seq![
                    view[i as int],
                ]);
                assert(args.deep_view() == old(args).deep_view() + positional_contrib(
                    view.take(i + 1 as int),
                ));
            }
        } else {
            proof {
                assert(positional_contrib(view.take(i + 1 as int)) =~= positional_contrib(
                    view.take(i as int),
                ));
            }
        }
        i = i + 1;
    }
    proof {
        assert(view.take(items@.len() as int) =~= view);
    }
}

/// What one positional argument contributes: itself when non-empty,
/// nothing otherwise.
pub open spec fn positional1(x: Seq<char>) -> Seq<Seq<char>> {
    if x.len() == 0 {
        Seq::empty()
    } else {
        seq![x]
    }
}

/// Append one positional argument, skipped when empty.
pub fn push_positional(args: &mut Vec<String>, item: &str)
    ensures
        final(args).deep_view() == old(args).deep_view() + positional1(item@),
{
    if !item.is_empty() {
        args.push(String::from_str(item));
        proof {
            assert(args.deep_view() =~~= old(args).deep_view() + seq![item@]);
        }
    } else {
        proof {
            assert(args.deep_view() =~~= old(args).deep_view() + Seq::<Seq<char>>::empty());
        }
    }
}

/// The separator that ends option parsing before the positional
/// arguments, so that a positional starting with a dash is not read as
/// an option.
pub open spec fn separator() -> Seq<Seq<char>> {
    seq!["--"@]
}

/// Append the end-of-options separator.
pub fn push_separator(args: &mut Vec<String>)
    ensures
        final(args).deep_view() == old(args).deep_view() + separator(),
{
    args.push(String::from_str("--"));
    proof {
        assert(args.deep_view() =~~= old(args).deep_view() + separator());
    }
}

/// What a caller-supplied positional list contributes: nothing when it
/// is empty, otherwise the separator and then its non-empty items.
pub open spec fn guarded_positionals(items: Seq<Seq<char>>) -> Seq<Seq<char>> {
    if items.len() == 0 {
        Seq::empty()
    } else {
        separator() + positional_contrib(items)
    }
}

/// Append a caller-supplied positional list: the separator first, then
/// the non-empty items; nothing at all when the list is empty.
pub fn push_guarded_positionals(args: &mut Vec<String>, items: &[&str])
    ensures
        final(args).deep_view() == old(args).deep_view() + guarded_positionals(items.deep_view()),
{
    if items.len() == 0 {
        proof {
            assert(args.deep_view() =~~= old(args).deep_view() + Seq::<Seq<char>>::empty());
        }
        return ;
    }
    push_separator(&mut *args);
    push_positionals(&mut *args, items);
    proof {
        assert(old(args).deep_view() + (separator() + positional_contrib(items.deep_view()))
            =~= (old(args).deep_view() + separator()) + positional_contrib(items.deep_view()));
    }
}

/// Start an argument list with the sub-command's name.
pub fn new_args(name: &str) -> (r: Vec<String>)
    ensures
        r.deep_view() == seq![name@],
{
    let mut r: Vec<String> = Vec::new();
    r.push(String::from_str(name));
    proof {
        assert(r.deep_view() =~~= seq![name@]);
    }
    r
}

} // verus!
