//! Rendering of a template at a given indentation.
//!
//! A template leaves open the text of the types it names. Each entry of a
//! body asks for at most one text, its [`Request`]: for a flattened type its
//! field lines at the body's indentation, for an inlined type its inline body
//! one level deeper, for a lowered type its name in the target language. An
//! entry whose type is given verbatim asks for none.
//!
//! The texts come either from the caller, one for each entry in order (that
//! of an entry which asks for none is not read), or from a function that
//! answers requests.
use vstd::prelude::*;
use vstd::string::StringExecFns;
use crate::attr::GenericParam;
use crate::template::{Dependency, DerivedTS, FieldTemplate, TypeText};
use crate::type_expr::TypeExpr;
use crate::text::{join, lemma_join_push, pad, push_pad};

verus! {

/// A text that rendering needs and the template does not hold.
#[derive(Clone, Copy, Debug, PartialEq, Eq)]
pub enum Request<'a> {
    /// The field lines of the type, without braces, at `indent`.
    FlattenedBody { ty: &'a TypeExpr, indent: usize },
    /// The body of the type between braces, the closing one at `indent`.
    InlineBody { ty: &'a TypeExpr, indent: usize },
    /// The name of the type in the target language, with `generics` in scope.
    Name { ty: &'a TypeExpr, generics: &'a Vec<GenericParam> },
}

/// The text that an entry of a body at `indent` asks for, if any.
pub open spec fn request_at<'a>(line: FieldTemplate<'a>, indent: usize) -> Option<Request<'a>> {
    match line {
        FieldTemplate::Flattened(ty) => Some(Request::FlattenedBody { ty, indent }),
        FieldTemplate::Line { ty: TypeText::Verbatim(_), .. } => None,
        FieldTemplate::Line { ty: TypeText::Inline(ty), .. } => Some(
            Request::InlineBody { ty, indent: (indent + 1) as usize },
        ),
        FieldTemplate::Line { ty: TypeText::Lowered { ty, generics }, .. } => Some(
            Request::Name { ty, generics },
        ),
    }
}

/// Whether `lower` accepts the request of each entry of a body at `indent`.
pub open spec fn answerable<'a, L: Fn(Request<'a>) -> String>(
    lines: Seq<FieldTemplate<'a>>,
    indent: usize,
    lower: L,
) -> bool {
    forall|i: int|
        0 <= i < lines.len() ==> (#[trigger] request_at(lines[i], indent) matches Some(request)
            ==> lower.requires((request,)))
}

/// Whether `texts` holds, for each entry of a body at `indent`, an answer of
/// `lower` to the entry's request, and an empty text where it has none.
pub open spec fn answered<'a, L: Fn(Request<'a>) -> String>(
    lines: Seq<FieldTemplate<'a>>,
    indent: usize,
    lower: L,
    texts: Seq<String>,
) -> bool {
    &&& texts.len() == lines.len()
    &&& forall|i: int|
        0 <= i < lines.len() ==> match request_at(lines[i], indent) {
            Some(request) => lower.ensures((request,), #[trigger] texts[i]),
            None => texts[i]@.len() == 0,
        }
}

/// Whether `lists` holds, for each contribution, an answer of `dependencies_of` to it.
pub open spec fn gathered_from<'a, D: Fn(Dependency<'a>) -> Vec<String>>(
    contributions: Seq<Dependency<'a>>,
    dependencies_of: D,
    lists: Seq<Vec<String>>,
) -> bool {
    &&& lists.len() == contributions.len()
    &&& forall|i: int|
        0 <= i < contributions.len() ==> dependencies_of.ensures(
            (contributions[i],),
            #[trigger] lists[i],
        )
}

/// The text of one entry of a body at `indent`, `text` being the text supplied for its type.
pub open spec fn line_text(line: FieldTemplate, indent: nat, text: Seq<char>) -> Seq<char> {
    match line {
        FieldTemplate::Flattened(_) => text,
        FieldTemplate::Line { name, optional, ty } => pad(indent + 1) + name@ + (if optional {
            "?"@
        } else {
            Seq::empty()
        }) + ": "@ + (match ty {
            TypeText::Verbatim(given) => given@,
            _ => text,
        }) + ","@,
    }
}

/// The texts of all entries of a body at `indent`.
pub open spec fn lines_text(lines: Seq<FieldTemplate>, indent: nat, texts: Seq<String>) -> Seq<
    Seq<char>,
> {
    Seq::new(lines.len(), |i: int| line_text(lines[i], indent, texts[i]@))
}

/// The body without its braces: the entries, one per line.
pub open spec fn flattened_text(lines: Seq<FieldTemplate>, indent: nat, texts: Seq<String>) -> Seq<
    char,
> {
    join(lines_text(lines, indent, texts), "\n"@)
}

/// The body between braces, the closing one at `indent`.
pub open spec fn inline_text(lines: Seq<FieldTemplate>, indent: nat, texts: Seq<String>) -> Seq<
    char,
> {
    "{\n"@ + flattened_text(lines, indent, texts) + "\n"@ + pad(indent) + "}"@
}

/// The declaration of a record: `interface`, its name and generic clause, and
/// its body at the outermost level.
pub open spec fn decl_text(derived: DerivedTS, texts: Seq<String>) -> Seq<char> {
    "interface "@ + derived.name@ + derived.generic_clause@ + " "@ + inline_text(
        derived.fields@,
        0,
        texts,
    )
}

/// All the lists of `lists`, one after the other.
pub open spec fn concat_all(lists: Seq<Vec<String>>) -> Seq<String>
    decreases lists.len(),
{
    if lists.len() == 0 {
        Seq::empty()
    } else {
        concat_all(lists.drop_last()) + lists.last()@
    }
}

/// Appends the text of one entry of a body to `out`.
pub fn render_line(line: &FieldTemplate, indent: usize, text: &str, out: &mut String)
    ensures
        final(out)@ == old(out)@ + line_text(*line, indent as nat, text@),
{
    match line {
        FieldTemplate::Flattened(_) => {
            out.append(text);
        },
        FieldTemplate::Line { name, optional, ty } => {
            push_pad(out, indent);
            out.append("    ");
            proof {
                reveal_strlit("    ");
                assert(pad(indent as nat) + "    "@ =~= pad(indent as nat + 1));
            }
            out.append(name.as_str());
            if *optional {
                out.append("?");
            }
            out.append(": ");
            match ty {
                TypeText::Verbatim(given) => {
                    out.append(given.as_str());
                },
                _ => {
                    out.append(text);
                },
            }
            out.append(",");
            proof {
                assert(out@ =~= old(out)@ + line_text(*line, indent as nat, text@));
            }
        },
    }
}

/// The text that an entry of a body at `indent` asks for, if any.
pub fn request<'a>(line: &FieldTemplate<'a>, indent: usize) -> (r: Option<Request<'a>>)
    requires
        indent < usize::MAX,
    ensures
        r == request_at(*line, indent),
{
    match line {
        FieldTemplate::Flattened(ty) => Some(Request::FlattenedBody { ty: *ty, indent }),
        FieldTemplate::Line { name: _, optional: _, ty } => match ty {
            TypeText::Verbatim(_) => None,
            TypeText::Inline(ty) => Some(Request::InlineBody { ty: *ty, indent: indent + 1 }),
            TypeText::Lowered { ty, generics } => Some(
                Request::Name { ty: *ty, generics: *generics },
            ),
        },
    }
}

impl<'a> DerivedTS<'a> {
    /// Asks `lower` for the text of each entry of the body at `indent`, in order.
    pub fn texts_with<L: Fn(Request<'a>) -> String>(&self, indent: usize, lower: &L) -> (texts:
        Vec<String>)
        requires
            indent < usize::MAX,
            answerable(self.fields@, indent, *lower),
        ensures
            answered(self.fields@, indent, *lower, texts@),
    {
        let mut texts: Vec<String> = Vec::new();
        let mut i: usize = 0;
        while i < self.fields.len()
            invariant
                i <= self.fields.len(),
                indent < usize::MAX,
                answerable(self.fields@, indent, *lower),
                answered(self.fields@.take(i as int), indent, *lower, texts@),
            decreases self.fields.len() - i,
        {
            let text = match request(&self.fields[i], indent) {
                Some(wanted) => lower(wanted),
                None => String::new(),
            };
            texts.push(text);
            i += 1;
        }
        proof {
            assert(self.fields@.take(i as int) =~= self.fields@);
        }
        texts
    }

    /// Renders the body without its braces, at `indent`, with the texts that `lower` gives.
    pub fn inline_flattened_with<L: Fn(Request<'a>) -> String>(
        &self,
        indent: usize,
        lower: &L,
    ) -> (out: String)
        requires
            indent < usize::MAX,
            answerable(self.fields@, indent, *lower),
        ensures
            exists|texts: Seq<String>|
                {
                    &&& answered(self.fields@, indent, *lower, texts)
                    &&& out@ == #[trigger] flattened_text(self.fields@, indent as nat, texts)
                },
    {
        let texts = self.texts_with(indent, lower);
        self.inline_flattened(indent, &texts).unwrap()
    }

    /// Renders the body between braces, the closing one at `indent`, with the
    /// texts that `lower` gives.
    pub fn inline_with<L: Fn(Request<'a>) -> String>(&self, indent: usize, lower: &L) -> (out:
        String)
        requires
            indent < usize::MAX,
            answerable(self.fields@, indent, *lower),
        ensures
            exists|texts: Seq<String>|
                {
                    &&& answered(self.fields@, indent, *lower, texts)
                    &&& out@ == #[trigger] inline_text(self.fields@, indent as nat, texts)
                },
    {
        let texts = self.texts_with(indent, lower);
        self.inline(indent, &texts).unwrap()
    }

    /// Renders the record's declaration, with the texts that `lower` gives.
    pub fn decl_with<L: Fn(Request<'a>) -> String>(&self, lower: &L) -> (out: String)
        requires
            answerable(self.fields@, 0, *lower),
        ensures
            exists|texts: Seq<String>|
                {
                    &&& answered(self.fields@, 0, *lower, texts)
                    &&& out@ == #[trigger] decl_text(*self, texts)
                },
    {
        let texts = self.texts_with(0, lower);
        self.decl(&texts).unwrap()
    }

    /// Assembles the dependency list from what `dependencies_of` gives for
    /// each contribution, in order, with nothing removed.
    pub fn dependencies_with<D: Fn(Dependency<'a>) -> Vec<String>>(
        &self,
        dependencies_of: &D,
    ) -> (out: Vec<String>)
        requires
            forall|i: int|
                0 <= i < self.dependencies@.len() ==> dependencies_of.requires(
                    (#[trigger] self.dependencies@[i],),
                ),
        ensures
            exists|lists: Seq<Vec<String>>|
                {
                    &&& gathered_from(self.dependencies@, *dependencies_of, lists)
                    &&& out@ == #[trigger] concat_all(lists)
                },
    {
        let mut lists: Vec<Vec<String>> = Vec::new();
        let mut i: usize = 0;
        while i < self.dependencies.len()
            invariant
                i <= self.dependencies.len(),
                forall|i: int|
                0 <= i < self.dependencies@.len() ==> dependencies_of.requires(
                    (#[trigger] self.dependencies@[i],),
                ),
                gathered_from(self.dependencies@.take(i as int), *dependencies_of, lists@),
            decreases self.dependencies.len() - i,
        {
            let list = dependencies_of(self.dependencies[i]);
            lists.push(list);
            i += 1;
        }
        proof {
            assert(self.dependencies@.take(i as int) =~= self.dependencies@);
        }
        self.dependency_list(&lists).unwrap()
    }

    /// Renders the body without its braces, at `indent`.
    /// There is a result where `texts` holds one text for each entry, and only then.
    pub fn inline_flattened(&self, indent: usize, texts: &Vec<String>) -> (r: Option<String>)
        ensures
            r is Some <==> texts@.len() == self.fields@.len(),
            r matches Some(out) ==> out@ == flattened_text(self.fields@, indent as nat, texts@),
    {
        if texts.len() != self.fields.len() {
            return None;
        }
        let ghost all = lines_text(self.fields@, indent as nat, texts@);
        let mut out = String::new();
        let mut i: usize = 0;
        while i < self.fields.len()
            invariant
                i <= self.fields.len(),
                texts@.len() == self.fields@.len(),
                all == lines_text(self.fields@, indent as nat, texts@),
                out@ == join(all.take(i as int), "\n"@),
            decreases self.fields.len() - i,
        {
            proof {
                lemma_join_push(all.take(i as int), "\n"@, all[i as int]);
                assert(all.take(i + 1) =~= all.take(i as int).push(all[i as int]));
            }
            if i > 0 {
                out.append("\n");
            }
            render_line(&self.fields[i], indent, texts[i].as_str(), &mut out);
            proof {
                assert(i == 0 ==> out@ =~= all[i as int]);
            }
            i += 1;
        }
        proof {
            assert(all.take(i as int) =~= all);
        }
        Some(out)
    }

    /// Renders the body between braces, the closing one at `indent`.
    /// There is a result where `texts` holds one text for each entry, and only then.
    pub fn inline(&self, indent: usize, texts: &Vec<String>) -> (r: Option<String>)
        ensures
            r is Some <==> texts@.len() == self.fields@.len(),
            r matches Some(out) ==> out@ == inline_text(self.fields@, indent as nat, texts@),
    {
        match self.inline_flattened(indent, texts) {
            None => None,
            Some(body) => {
                let mut out = String::from_str("{\n");
                out.append(body.as_str());
                out.append("\n");
                push_pad(&mut out, indent);
                out.append("}");
                Some(out)
            },
        }
    }

    /// Renders the record's declaration.
    /// There is a result where `texts` holds one text for each entry, and only then.
    pub fn decl(&self, texts: &Vec<String>) -> (r: Option<String>)
        ensures
            r is Some <==> texts@.len() == self.fields@.len(),
            r matches Some(out) ==> out@ == decl_text(*self, texts@),
    {
        match self.inline(0, texts) {
            None => None,
            Some(body) => {
                let mut out = String::from_str("interface ");
                out.append(self.name.as_str());
                out.append(self.generic_clause.as_str());
                out.append(" ");
                out.append(body.as_str());
                Some(out)
            },
        }
    }

    /// Assembles the dependency list from what each contribution stands for:
    /// `lists[i]` are the dependencies that contribution `i` brings, and the
    /// result holds them all, in order, with nothing removed.
    /// There is a result where `lists` holds one list for each contribution, and only then.
    pub fn dependency_list(&self, lists: &Vec<Vec<String>>) -> (r: Option<Vec<String>>)
        ensures
            r is Some <==> lists@.len() == self.dependencies@.len(),
            r matches Some(out) ==> out@ == concat_all(lists@),
    {
        if lists.len() != self.dependencies.len() {
            return None;
        }
        let mut out: Vec<String> = Vec::new();
        let mut i: usize = 0;
        while i < lists.len()
            invariant
                i <= lists.len(),
                out@ == concat_all(lists@.take(i as int)),
            decreases lists.len() - i,
        {
            let list = &lists[i];
            let mut j: usize = 0;
            while j < list.len()
                invariant
                    j <= list.len(),
                    out@ == concat_all(lists@.take(i as int)) + list@.take(j as int),
                decreases list.len() - j,
            {
                out.push(list[j].clone());
                proof {
                    assert(list@.take(j + 1) =~= list@.take(j as int).push(list@[j as int]));
                }
                j += 1;
            }
            proof {
                assert(list@.take(j as int) =~= list@);
                assert(lists@.take(i + 1).drop_last() =~= lists@.take(i as int));
            }
            i += 1;
        }
        proof {
            assert(lists@.take(i as int) =~= lists@);
        }
        Some(out)
    }
}

} // verus!
