//! Message templates and the arguments interpolated into them.
//!
//! A template is literal text in which `{name}` stands for the argument
//! called `name`, `{}` stands for the next argument in order, named or not,
//! and `{{` and `}}` stand for single braces. Any other brace makes the
//! template unfit for its arguments, as does a placeholder that no argument
//! answers.
//!
//! Each argument is displayed once, when it is added; formatting then only
//! copies text.
use vstd::prelude::*;
use vstd::string::to_string_from_display_ensures;

verus! {

/// The text with `prefix` put in front, carried through a possible failure.
pub open spec fn prepend(prefix: Seq<char>, rest: Option<Seq<char>>) -> Option<Seq<char>> {
    match rest {
        Some(r) => Some(prefix + r),
        None => None,
    }
}

/// Putting two pieces in front one after the other puts their concatenation.
proof fn lemma_prepend_twice(a: Seq<char>, b: Seq<char>, rest: Option<Seq<char>>)
    ensures
        prepend(a, prepend(b, rest)) == prepend(a + b, rest),
{
    if let Some(r) = rest {
        assert(a + (b + r) =~= (a + b) + r);
    }
}

/// The value of the first argument called `name`.
pub open spec fn lookup(args: Seq<(Seq<char>, Seq<char>)>, name: Seq<char>) -> Option<Seq<char>>
    decreases args.len(),
{
    if args.len() == 0 {
        None
    } else if args[0].0 == name {
        Some(args[0].1)
    } else {
        lookup(args.drop_first(), name)
    }
}

/// What the placeholder `{name}` stands for when `next` positional
/// placeholders have come before it: the next argument in order when the
/// name is empty, else the argument of that name.
pub open spec fn placeholder_value(
    args: Seq<(Seq<char>, Seq<char>)>,
    name: Seq<char>,
    next: nat,
) -> Option<Seq<char>> {
    if name.len() == 0 {
        if next < args.len() {
            Some(args[next as int].1)
        } else {
            None
        }
    } else {
        lookup(args, name)
    }
}

/// The count of positional placeholders after `{name}` has been read.
pub open spec fn next_after(name: Seq<char>, next: nat) -> nat {
    if name.len() == 0 {
        next + 1
    } else {
        next
    }
}

/// The interpolation of the rest `t` of a template. `next` positional
/// placeholders have been read before it, and `pending` holds the name read
/// so far when `t` starts inside a placeholder. `None` where the template
/// does not fit its arguments.
pub open spec fn render_from(
    t: Seq<char>,
    args: Seq<(Seq<char>, Seq<char>)>,
    next: nat,
    pending: Option<Seq<char>>,
) -> Option<Seq<char>>
    decreases t.len(),
{
    if t.len() == 0 {
        match pending {
            Some(_) => None,
            None => Some(Seq::empty()),
        }
    } else {
        match pending {
            Some(name) => {
                if t[0] == '}' {
                    match placeholder_value(args, name, next) {
                        Some(v) => prepend(v, render_from(t.drop_first(), args, next_after(name, next), None)),
                        None => None,
                    }
                } else if t[0] == '{' {
                    None
                } else {
                    render_from(t.drop_first(), args, next, Some(name.push(t[0])))
                }
            },
            None => {
                if t[0] == '{' {
                    if t.len() >= 2 && t[1] == '{' {
                        prepend(seq!['{'], render_from(t.subrange(2, t.len() as int), args, next, None))
                    } else {
                        render_from(t.drop_first(), args, next, Some(Seq::empty()))
                    }
                } else if t[0] == '}' {
                    if t.len() >= 2 && t[1] == '}' {
                        prepend(seq!['}'], render_from(t.subrange(2, t.len() as int), args, next, None))
                    } else {
                        None
                    }
                } else {
                    prepend(seq![t[0]], render_from(t.drop_first(), args, next, None))
                }
            },
        }
    }
}

/// The interpolation of template `t` against `args`, or `None` where the
/// template does not fit them.
pub open spec fn interpolate(t: Seq<char>, args: Seq<(Seq<char>, Seq<char>)>) -> Option<Seq<char>> {
    render_from(t, args, 0, None)
}

/// A literal template and the arguments to interpolate into it, each
/// argument a name and its displayed value.
pub struct FormatArgs {
    template: &'static str,
    args: Vec<(String, String)>,
}

impl FormatArgs {
    pub closed spec fn template_view(&self) -> Seq<char> {
        self.template@
    }

    pub closed spec fn args_view(&self) -> Seq<(Seq<char>, Seq<char>)> {
        self.args@.map_values(|a: (String, String)| (a.0@, a.1@))
    }

    /// The message these arguments produce.
    pub open spec fn rendered(&self) -> Option<Seq<char>> {
        interpolate(self.template_view(), self.args_view())
    }

    /// Whether the template fits its arguments, so that formatting succeeds.
    pub open spec fn fits(&self) -> bool {
        self.rendered() is Some
    }

    /// A template with no arguments yet.
    pub fn new(template: &'static str) -> (r: FormatArgs)
        ensures
            r.template_view() == template@,
            r.args_view() == Seq::<(Seq<char>, Seq<char>)>::empty(),
    {
        let r = FormatArgs { template, args: Vec::new() };
        assert(r.args_view() =~= Seq::<(Seq<char>, Seq<char>)>::empty());
        r
    }

    /// The same template with one more argument, `name` displayed as `value`.
    /// An argument with an empty name is reachable by position only.
    pub fn arg(self, name: &str, value: &str) -> (r: FormatArgs)
        ensures
            r.template_view() == self.template_view(),
            r.args_view() == self.args_view().push((name@, value@)),
    {
        let mut args = self.args;
        args.push((String::from_str(name), String::from_str(value)));
        let r = FormatArgs { template: self.template, args };
        assert(r.args_view() =~= self.args_view().push((name@, value@)));
        r
    }

    /// The same template with one more argument, `name` displayed as
    /// `value` shows itself. `value` is displayed exactly once, here.
    pub fn arg_display<T: core::fmt::Display + ?Sized>(self, name: &str, value: &T) -> (r: FormatArgs)
        ensures
            r.template_view() == self.template_view(),
            r.args_view().len() == self.args_view().len() + 1,
            r.args_view().drop_last() == self.args_view(),
            r.args_view().last().0 == name@,
            exists|shown: String|
                to_string_from_display_ensures::<T>(value, shown) && r.args_view().last().1 == shown@,
    {
        let shown = value.to_string();
        let mut args = self.args;
        args.push((String::from_str(name), shown));
        let r = FormatArgs { template: self.template, args };
        assert(r.args_view().drop_last() =~= self.args_view());
        assert(r.args_view().last().1 == shown@);
        r
    }

    /// The value of the first argument called `name`.
    fn find_named(&self, name: &str) -> (r: Option<&String>)
        ensures
            match r {
                Some(v) => lookup(self.args_view(), name@) == Some(v@),
                None => lookup(self.args_view(), name@) is None,
            },
    {
        let key = String::from_str(name);
        let mut k: usize = 0;
        assert(self.args_view().subrange(0, self.args@.len() as int) =~= self.args_view());
        while k < self.args.len()
            invariant
                k <= self.args@.len(),
                key@ == name@,
                lookup(self.args_view(), name@) == lookup(self.args_view().subrange(k as int, self.args@.len() as int), name@),
            decreases self.args@.len() - k,
        {
            let ghost rest = self.args_view().subrange(k as int, self.args@.len() as int);
            assert(rest.drop_first() =~= self.args_view().subrange(k + 1, self.args@.len() as int));
            if self.args[k].0 == key {
                return Some(&self.args[k].1);
            }
            k = k + 1;
        }
        None
    }

    /// What the placeholder `{name}` stands for after `next` positional ones.
    fn find_value(&self, name: &str, next: usize) -> (r: Option<&String>)
        ensures
            match r {
                Some(v) => {
                    &&& placeholder_value(self.args_view(), name@, next as nat) == Some(v@)
                    &&& (name@.len() == 0 ==> next < self.args@.len())
                },
                None => placeholder_value(self.args_view(), name@, next as nat) is None,
            },
    {
        if name.unicode_len() == 0 {
            if next < self.args.len() {
                Some(&self.args[next].1)
            } else {
                None
            }
        } else {
            self.find_named(name)
        }
    }

    /// The message these arguments produce, or `None` where the template
    /// does not fit them.
    pub fn render(&self) -> (r: Option<String>)
        ensures
            match r {
                Some(s) => self.rendered() == Some(s@),
                None => self.rendered() is None,
            },
    {
        let t = self.template;
        let n = t.unicode_len();
        let ghost args = self.args_view();
        let n_args = self.args.len();
        let mut out = String::new();
        let mut i: usize = 0;
        let mut next: usize = 0;
        let mut in_name = false;
        let mut name_start: usize = 0;
        proof {
            assert(t@.subrange(0, n as int) =~= t@);
            assert(prepend(out@, render_from(t@, args, 0, None)) =~= render_from(t@, args, 0, None));
        }
        while i < n
            invariant
                n == t@.len(),
                t@ == self.template_view(),
                args == self.args_view(),
                i <= n,
                next <= args.len(),
                n_args == self.args@.len(),
                in_name ==> name_start <= i,
                interpolate(t@, args) == prepend(
                    out@,
                    render_from(
                        t@.subrange(i as int, n as int),
                        args,
                        next as nat,
                        if in_name {
                            Some(t@.subrange(name_start as int, i as int))
                        } else {
                            None
                        },
                    ),
                ),
            decreases n - i,
        {
            let ghost rest = t@.subrange(i as int, n as int);
            assert(rest.drop_first() =~= t@.subrange(i + 1, n as int));
            let c = t.get_char(i);
            if in_name {
                if c == '}' {
                    let name = t.substring_char(name_start, i);
                    match self.find_value(name, next) {
                        Some(v) => {
                            proof {
                                lemma_prepend_twice(
                                    out@,
                                    v@,
                                    render_from(t@.subrange(i + 1, n as int), args, next_after(name@, next as nat), None),
                                );
                            }
                            out.append(v.as_str());
                            if name.unicode_len() == 0 {
                                next = next + 1;
                            }
                            in_name = false;
                            i = i + 1;
                        },
                        None => {
                            return None;
                        },
                    }
                } else if c == '{' {
                    return None;
                } else {
                    assert(t@.subrange(name_start as int, i as int).push(c) =~= t@.subrange(
                        name_start as int,
                        i + 1,
                    ));
                    i = i + 1;
                }
            } else if c == '{' {
                if i + 1 < n && t.get_char(i + 1) == '{' {
                    assert(rest.subrange(2, rest.len() as int) =~= t@.subrange(i + 2, n as int));
                    proof {
                        lemma_prepend_twice(
                            out@,
                            seq!['{'],
                            render_from(t@.subrange(i + 2, n as int), args, next as nat, None),
                        );
                    }
                    proof {
                        reveal_strlit("{");
                    }
                    assert("{"@ == seq!['{']);
                    out.append("{");
                    i = i + 2;
                } else {
                    assert(t@.subrange(i + 1, i + 1) =~= Seq::<char>::empty());
                    in_name = true;
                    name_start = i + 1;
                    i = i + 1;
                }
            } else if c == '}' {
                if i + 1 < n && t.get_char(i + 1) == '}' {
                    assert(rest.subrange(2, rest.len() as int) =~= t@.subrange(i + 2, n as int));
                    proof {
                        lemma_prepend_twice(
                            out@,
                            seq!['}'],
                            render_from(t@.subrange(i + 2, n as int), args, next as nat, None),
                        );
                    }
                    proof {
                        reveal_strlit("}");
                    }
                    assert("}"@ == seq!['}']);
                    out.append("}");
                    i = i + 2;
                } else {
                    return None;
                }
            } else {
                let one = t.substring_char(i, i + 1);
                assert(one@ =~= seq![c]);
                proof {
                    lemma_prepend_twice(
                        out@,
                        seq![c],
                        render_from(t@.subrange(i + 1, n as int), args, next as nat, None),
                    );
                }
                out.append(one);
                i = i + 1;
            }
        }
        if in_name {
            None
        } else {
            Some(out)
        }
    }
}

} // verus!
