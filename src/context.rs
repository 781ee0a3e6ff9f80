//! Contexts: handlers grouped under a common path, tags and pages, handed to
//! the pages when the application's router is built.
use vstd::prelude::*;
use vstd::string::{StrSliceExecFns, StringExecFns};

use crate::page::{ContextHandler, SwaggapiHandler};
use crate::ptrset::{ComparePtr, PtrSet};

verus! {

/// The identity of the page that holds every handler.
pub const EVERYTHING: usize = 0;

/// The page that holds every handler of the application.
#[derive(Clone, Copy, Debug)]
pub struct PageOfEverything;

impl PageOfEverything {
    /// The page's identity.
    pub fn id(&self) -> (r: ComparePtr)
        ensures
            r.0 == EVERYTHING,
    {
        ComparePtr(EVERYTHING)
    }
}

/// The rest `s` of a path rewritten, where `inside` says whether a `:name`
/// segment is open: it runs up to the next `/` or the end, and is closed there.
pub open spec fn openapi_path_from(s: Seq<char>, inside: bool) -> Seq<char>
    decreases s.len(),
{
    if s.len() == 0 {
        if inside {
            seq!['}']
        } else {
            Seq::empty()
        }
    } else if inside {
        if s[0] == '/' {
            seq!['}', '/'] + openapi_path_from(s.drop_first(), false)
        } else {
            seq![s[0]] + openapi_path_from(s.drop_first(), true)
        }
    } else if s[0] == ':' {
        seq!['{'] + openapi_path_from(s.drop_first(), true)
    } else {
        seq![s[0]] + openapi_path_from(s.drop_first(), false)
    }
}

/// A path with the host framework's parameter syntax (`:name`, up to the
/// next `/`) written in OpenAPI's (`{name}`).
pub open spec fn openapi_path(s: Seq<char>) -> Seq<char> {
    openapi_path_from(s, false)
}

/// How a host framework writes path parameters.
#[derive(Clone, Copy, Debug, PartialEq, Eq, Structural)]
pub enum PathSyntax {
    /// `:name`, up to the next `/`: rewritten into OpenAPI's syntax.
    Colon,
    /// `{name}`, as OpenAPI writes them: kept as is.
    Braces,
}

/// A path written in `syntax`, in OpenAPI's syntax.
pub open spec fn path_in(syntax: PathSyntax, path: Seq<char>) -> Seq<char> {
    match syntax {
        PathSyntax::Colon => openapi_path(path),
        PathSyntax::Braces => path,
    }
}

/// Relies on `regex::Regex::replace_all` with the pattern `:([^/]*)` and the
/// replacement `{$1}`: each `:` with the characters after it up to the next
/// `/` (greedily, none overlapping) becomes `{` those characters `}`.
#[verifier::external_body]
fn framework_path_to_openapi(path: &str) -> (r: String)
    ensures
        r@ == openapi_path(path@),
{
    regex::Regex::new(":([^/]*)").unwrap().replace_all(path, "{$1}").into_owned()
}

/// The segments of the rest `s` of a path, split at each `/`; `cur` is the
/// part of the current segment read so far.
pub open spec fn segments_from(s: Seq<char>, cur: Seq<char>) -> Seq<Seq<char>>
    decreases s.len(),
{
    if s.len() == 0 {
        seq![cur]
    } else if s[0] == '/' {
        seq![cur] + segments_from(s.drop_first(), Seq::empty())
    } else {
        segments_from(s.drop_first(), cur.push(s[0]))
    }
}

/// The name a path segment gives a parameter: what stands between its
/// braces, if it is `{name}`.
pub open spec fn braced_name(segment: Seq<char>) -> Option<Seq<char>> {
    if segment.len() >= 2 && segment[0] == '{' && segment.last() == '}' {
        Some(segment.subrange(1, segment.len() - 1))
    } else {
        None
    }
}

/// The parameter names of a list of segments, in order.
pub open spec fn names_of(segments: Seq<Seq<char>>) -> Seq<Seq<char>>
    decreases segments.len(),
{
    if segments.len() == 0 {
        Seq::empty()
    } else {
        let rest = names_of(segments.drop_last());
        match braced_name(segments.last()) {
            Some(n) => rest.push(n),
            None => rest,
        }
    }
}

/// The names of the parameters of an OpenAPI path template, in order.
pub open spec fn route_names(path: Seq<char>) -> Seq<Seq<char>> {
    names_of(segments_from(path, Seq::empty()))
}

/// Adds the name of the segment `path[start..end]`, if it is `{name}`.
fn push_name(path: &str, start: usize, end: usize, names: &mut Vec<String>)
    requires
        start <= end <= path@.len(),
    ensures
        texts(final(names)@) == match braced_name(path@.subrange(start as int, end as int)) {
            Some(n) => texts(old(names)@).push(n),
            None => texts(old(names)@),
        },
{
    let segment = path.substring_char(start, end);
    let len = segment.unicode_len();
    if len >= 2 && segment.get_char(0) == '{' && segment.get_char(len - 1) == '}' {
        let name = String::from_str(segment.substring_char(1, len - 1));
        let ghost before = names@;
        names.push(name);
        proof {
            assert(texts(names@) =~= texts(before).push(name@));
        }
    }
}

/// The names of the parameters of an OpenAPI path template (its `{name}`
/// segments), in order.
pub fn route_parameter_names(path: &str) -> (r: Vec<String>)
    ensures
        texts(r@) == route_names(path@),
{
    let n = path.unicode_len();
    let mut names: Vec<String> = Vec::new();
    let ghost mut done: Seq<Seq<char>> = Seq::empty();
    let mut start: usize = 0;
    let mut i: usize = 0;
    proof {
        assert(path@.subrange(0, n as int) =~= path@);
        assert(path@.subrange(0, 0) =~= Seq::<char>::empty());
        assert(done + segments_from(path@, Seq::empty()) =~= segments_from(path@, Seq::empty()));
        assert(texts(names@) =~= Seq::<Seq<char>>::empty());
    }
    while i < n
        invariant
            n == path@.len(),
            start <= i <= n,
            segments_from(path@, Seq::empty()) == done + segments_from(
                path@.subrange(i as int, n as int),
                path@.subrange(start as int, i as int),
            ),
            texts(names@) == names_of(done),
        decreases n - i,
    {
        let c = path.get_char(i);
        let ghost rest = path@.subrange(i as int, n as int);
        let ghost cur = path@.subrange(start as int, i as int);
        proof {
            assert(rest.drop_first() =~= path@.subrange(i + 1, n as int));
        }
        if c == '/' {
            push_name(path, start, i, &mut names);
            proof {
                assert(done.push(cur).drop_last() =~= done);
                assert(done + (seq![cur] + segments_from(rest.drop_first(), Seq::empty())) =~= done.push(cur)
                    + segments_from(rest.drop_first(), Seq::empty()));
                assert(path@.subrange(i + 1, i + 1) =~= Seq::<char>::empty());
                done = done.push(cur);
            }
            start = i + 1;
        } else {
            proof {
                assert(cur.push(c) =~= path@.subrange(start as int, i + 1));
            }
        }
        i = i + 1;
    }
    let ghost cur = path@.subrange(start as int, n as int);
    proof {
        assert(path@.subrange(n as int, n as int) =~= Seq::<char>::empty());
        assert(done + seq![cur] =~= done.push(cur));
        assert(done.push(cur).drop_last() =~= done);
    }
    push_name(path, start, n, &mut names);
    names
}

/// The texts of a list of strings.
pub open spec fn texts(v: Seq<String>) -> Seq<Seq<char>> {
    v.map_values(|s: String| s@)
}

/// `v` with `t` added unless it is there already.
pub open spec fn with_text(v: Seq<Seq<char>>, t: Seq<char>) -> Seq<Seq<char>> {
    if v.contains(t) {
        v
    } else {
        v.push(t)
    }
}

/// `v` with each of `more` added in order, skipping those already there.
pub open spec fn with_texts(v: Seq<Seq<char>>, more: Seq<Seq<char>>) -> Seq<Seq<char>>
    decreases more.len(),
{
    if more.len() == 0 {
        v
    } else {
        with_text(with_texts(v, more.drop_last()), more.last())
    }
}

/// `v` with `x` added unless it is there already.
pub open spec fn with_id(v: Seq<usize>, x: usize) -> Seq<usize> {
    if v.contains(x) {
        v
    } else {
        v.push(x)
    }
}

/// `v` with each of `more` added in order, skipping those already there.
pub open spec fn with_ids(v: Seq<usize>, more: Seq<usize>) -> Seq<usize>
    decreases more.len(),
{
    if more.len() == 0 {
        v
    } else {
        with_id(with_ids(v, more.drop_last()), more.last())
    }
}

/// The path of a handler added under the context path `prefix`.
pub open spec fn prefixed(prefix: Seq<char>, path: Seq<char>) -> Seq<char> {
    if prefix.len() == 0 {
        path
    } else {
        prefix + path
    }
}

/// Handlers grouped under a common path, tags and pages, together with the
/// host framework's router (`Impl`) that they are registered with.
#[derive(Debug)]
pub struct ApiContext<Impl> {
    /// The handlers, with this context's path, tags and pages applied.
    pub handlers: Vec<ContextHandler>,
    /// The host framework's router.
    pub framework_impl: Impl,
    /// The path every handler is routed under.
    pub path: String,
    /// The pages every handler is added to, besides the page of everything.
    pub pages: PtrSet,
    /// The tags every handler gets.
    pub tags: Vec<String>,
}

/// Whether `h` is `old` added to a context with path `path`, tags `tags` and
/// pages `pages`.
pub open spec fn pushed(path: Seq<char>, tags: Seq<String>, pages: Seq<usize>, old: ContextHandler, h: ContextHandler) -> bool {
    &&& h.handler == old.handler
    &&& h.path@ == prefixed(path, old.path@)
    &&& texts(h.tags@) == with_texts(texts(old.tags@), texts(tags))
    &&& h.pages.items@ == with_ids(old.pages.items@, pages)
}

/// Adds `t` to `v` unless its text is there already.
fn insert_text(v: &mut Vec<String>, t: &String)
    ensures
        texts(final(v)@) == with_text(texts(old(v)@), t@),
{
    let mut i: usize = 0;
    while i < v.len()
        invariant
            i <= v@.len(),
            forall|k: int| 0 <= k < i ==> #[trigger] v@[k]@ != t@,
        decreases v@.len() - i,
    {
        if v[i] == *t {
            proof {
                assert(texts(v@)[i as int] == t@);
            }
            return;
        }
        i = i + 1;
    }
    let ghost before = v@;
    proof {
        assert forall|k: int| 0 <= k < texts(before).len() implies texts(before)[k] != t@ by {
            assert(texts(before)[k] == before[k]@);
        }
    }
    v.push(t.clone());
    proof {
        assert(texts(v@) =~= texts(before).push(t@));
    }
}

/// Adds each of `more` to `v` in order, skipping texts already there.
fn insert_texts(v: &mut Vec<String>, more: &Vec<String>)
    ensures
        texts(final(v)@) == with_texts(texts(old(v)@), texts(more@)),
{
    let ghost start = texts(v@);
    let mut i: usize = 0;
    while i < more.len()
        invariant
            i <= more@.len(),
            texts(v@) == with_texts(start, texts(more@.subrange(0, i as int))),
        decreases more@.len() - i,
    {
        insert_text(v, &more[i]);
        i = i + 1;
        proof {
            let ms = texts(more@.subrange(0, i as int));
            assert(ms.drop_last() =~= texts(more@.subrange(0, i - 1)));
            assert(ms.last() == more@[i - 1]@);
        }
    }
    proof {
        assert(more@.subrange(0, i as int) =~= more@);
    }
}

/// Adds each of `more` to `set` in order, skipping those already there.
fn insert_ids(set: &mut PtrSet, more: &Vec<usize>)
    requires
        old(set).wf(),
    ensures
        final(set).wf(),
        final(set).items@ == with_ids(old(set).items@, more@),
{
    let ghost start = set.items@;
    let mut i: usize = 0;
    while i < more.len()
        invariant
            i <= more@.len(),
            set.wf(),
            set.items@ == with_ids(start, more@.subrange(0, i as int)),
        decreases more@.len() - i,
    {
        set.insert(more[i]);
        i = i + 1;
        proof {
            assert(more@.subrange(0, i as int).drop_last() =~= more@.subrange(0, i - 1));
        }
    }
    proof {
        assert(more@.subrange(0, i as int) =~= more@);
    }
}

impl ContextHandler {
    /// A handler on its own: its own path and tags, no page.
    pub fn new(handler: SwaggapiHandler) -> (r: ContextHandler)
        ensures
            r.path@ == handler.path@,
            texts(r.tags@) == with_texts(Seq::empty(), texts(handler.tags@)),
            r.pages.wf(),
            r.pages.items@.len() == 0,
            r.handler == handler,
    {
        let path = handler.path.clone();
        let mut tags: Vec<String> = Vec::new();
        proof {
            assert(texts(tags@) =~= Seq::empty());
        }
        insert_texts(&mut tags, &handler.tags);
        ContextHandler { handler, path, tags, pages: PtrSet::new() }
    }

    /// The pages the handler is added to: the page of everything, then its own.
    pub fn page_ids(&self) -> (r: Vec<usize>)
        ensures
            r@ == seq![EVERYTHING] + self.pages.items@,
    {
        let mut out: Vec<usize> = Vec::new();
        out.push(EVERYTHING);
        let mut more = self.pages.iter();
        out.append(&mut more);
        out
    }
}

impl<T> ApiContext<T> {
    /// Every handler's pages are free of repeats.
    pub open spec fn wf(&self) -> bool {
        &&& self.pages.wf()
        &&& forall|i: int| 0 <= i < self.handlers@.len() ==> #[trigger] self.handlers@[i].pages.wf()
    }

    /// An empty context under `path`, around the framework's router.
    pub fn with_framework_impl(path: &str, framework_impl: T) -> (r: ApiContext<T>)
        ensures
            r.wf(),
            r.handlers@.len() == 0,
            r.framework_impl == framework_impl,
            r.path@ == path@,
            r.pages.items@.len() == 0,
            r.tags@.len() == 0,
    {
        ApiContext {
            handlers: Vec::new(),
            framework_impl,
            path: String::from_str(path),
            pages: PtrSet::new(),
            tags: Vec::new(),
        }
    }

    /// Adds a handler after applying this context's path, tags and pages to it.
    pub fn push_handler(&mut self, handler: ContextHandler)
        requires
            old(self).wf(),
            handler.pages.wf(),
        ensures
            final(self).wf(),
            final(self).handlers@.len() == old(self).handlers@.len() + 1,
            final(self).handlers@.drop_last() == old(self).handlers@,
            pushed(old(self).path@, old(self).tags@, old(self).pages.items@, handler, final(self).handlers@.last()),
            final(self).path == old(self).path,
            final(self).tags == old(self).tags,
            final(self).pages == old(self).pages,
            final(self).framework_impl == old(self).framework_impl,
    {
        let mut handler = handler;
        if !self.path.as_str().is_empty() {
            let mut path = self.path.clone();
            path.append(handler.path.as_str());
            handler.path = path;
        }
        insert_texts(&mut handler.tags, &self.tags);
        let ids = self.pages.iter();
        insert_ids(&mut handler.pages, &ids);
        let ghost before = self.handlers@;
        self.handlers.push(handler);
        proof {
            assert(self.handlers@.drop_last() =~= before);
        }
    }

    /// Adds a handler to the context.
    pub fn handler(self, handler: SwaggapiHandler) -> (r: ApiContext<T>)
        requires
            self.wf(),
        ensures
            r.wf(),
            r.handlers@.len() == self.handlers@.len() + 1,
            r.handlers@.drop_last() == self.handlers@,
            r.handlers@.last().handler == handler,
            r.handlers@.last().path@ == prefixed(self.path@, handler.path@),
            texts(r.handlers@.last().tags@) == with_texts(
                with_texts(Seq::empty(), texts(handler.tags@)),
                texts(self.tags@),
            ),
            r.handlers@.last().pages.items@ == with_ids(Seq::empty(), self.pages.items@),
            r.path == self.path && r.tags == self.tags && r.pages == self.pages,
            r.framework_impl == self.framework_impl,
    {
        let mut ctx = self;
        let h = ContextHandler::new(handler);
        proof {
            assert(h.pages.items@ =~= Seq::<usize>::empty());
        }
        ctx.push_handler(h);
        ctx
    }

    /// Attaches a page: the handlers added so far and all later ones are
    /// added to it.
    pub fn page(self, page: ComparePtr) -> (r: ApiContext<T>)
        requires
            self.wf(),
        ensures
            r.wf(),
            r.pages.items@ == with_id(self.pages.items@, page.0),
            r.handlers@.len() == self.handlers@.len(),
            forall|i: int|
                0 <= i < r.handlers@.len() ==> {
                    &&& (#[trigger] r.handlers@[i]).pages.items@ == with_id(self.handlers@[i].pages.items@, page.0)
                    &&& r.handlers@[i].handler == self.handlers@[i].handler
                    &&& r.handlers@[i].path == self.handlers@[i].path
                    &&& r.handlers@[i].tags == self.handlers@[i].tags
                },
            r.path == self.path && r.tags == self.tags,
            r.framework_impl == self.framework_impl,
    {
        let ApiContext { handlers, framework_impl, path, mut pages, tags } = self;
        let id = page.into_ptr();
        pages.insert(id);
        let ghost orig = handlers@;
        let mut rest = handlers;
        let mut out: Vec<ContextHandler> = Vec::new();
        while rest.len() > 0
            invariant
                out@.len() + rest@.len() == orig.len(),
                rest@ == orig.subrange(out@.len() as int, orig.len() as int),
                forall|i: int| 0 <= i < orig.len() ==> #[trigger] orig[i].pages.wf(),
                forall|i: int|
                    0 <= i < out@.len() ==> {
                        &&& (#[trigger] out@[i]).pages.wf()
                        &&& out@[i].pages.items@ == with_id(orig[i].pages.items@, id)
                        &&& out@[i].handler == orig[i].handler
                        &&& out@[i].path == orig[i].path
                        &&& out@[i].tags == orig[i].tags
                    },
            decreases rest@.len(),
        {
            let mut h = rest.remove(0);
            proof {
                assert(h == orig[out@.len() as int]);
            }
            h.pages.insert(id);
            out.push(h);
            proof {
                assert(rest@ =~= orig.subrange(out@.len() as int, orig.len() as int));
            }
        }
        ApiContext { handlers: out, framework_impl, path, pages, tags }
    }

    /// Attaches a tag to the handlers added so far and to all later ones.
    pub fn tag(self, tag: &str) -> (r: ApiContext<T>)
        requires
            self.wf(),
        ensures
            r.wf(),
            texts(r.tags@) == with_text(texts(self.tags@), tag@),
            r.handlers@.len() == self.handlers@.len(),
            forall|i: int|
                0 <= i < r.handlers@.len() ==> {
                    &&& texts((#[trigger] r.handlers@[i]).tags@) == with_text(texts(self.handlers@[i].tags@), tag@)
                    &&& r.handlers@[i].handler == self.handlers@[i].handler
                    &&& r.handlers@[i].path == self.handlers@[i].path
                    &&& r.handlers@[i].pages == self.handlers@[i].pages
                },
            r.path == self.path && r.pages == self.pages,
            r.framework_impl == self.framework_impl,
    {
        let t = String::from_str(tag);
        let ApiContext { handlers, framework_impl, path, pages, mut tags } = self;
        insert_text(&mut tags, &t);
        let ghost orig = handlers@;
        let mut rest = handlers;
        let mut out: Vec<ContextHandler> = Vec::new();
        while rest.len() > 0
            invariant
                t@ == tag@,
                out@.len() + rest@.len() == orig.len(),
                rest@ == orig.subrange(out@.len() as int, orig.len() as int),
                forall|i: int| 0 <= i < orig.len() ==> #[trigger] orig[i].pages.wf(),
                forall|i: int|
                    0 <= i < out@.len() ==> {
                        &&& texts((#[trigger] out@[i]).tags@) == with_text(texts(orig[i].tags@), tag@)
                        &&& out@[i].handler == orig[i].handler
                        &&& out@[i].path == orig[i].path
                        &&& out@[i].pages == orig[i].pages
                    },
            decreases rest@.len(),
        {
            let mut h = rest.remove(0);
            proof {
                assert(h == orig[out@.len() as int]);
            }
            insert_text(&mut h.tags, &t);
            out.push(h);
            proof {
                assert(rest@ =~= orig.subrange(out@.len() as int, orig.len() as int));
            }
        }
        ApiContext { handlers: out, framework_impl, path, pages, tags }
    }

    /// Adds the handlers of a sub-context, applying this context's path, tags
    /// and pages to each; hands back the sub-context's router.
    pub fn merge<U>(self, other: ApiContext<U>) -> (r: (ApiContext<T>, U))
        requires
            self.wf(),
            other.wf(),
        ensures
            r.0.wf(),
            r.1 == other.framework_impl,
            r.0.handlers@.len() == self.handlers@.len() + other.handlers@.len(),
            r.0.handlers@.subrange(0, self.handlers@.len() as int) == self.handlers@,
            forall|i: int|
                0 <= i < other.handlers@.len() ==> pushed(
                    self.path@,
                    self.tags@,
                    self.pages.items@,
                    other.handlers@[i],
                    #[trigger] r.0.handlers@[self.handlers@.len() + i],
                ),
            r.0.path == self.path && r.0.tags == self.tags && r.0.pages == self.pages,
            r.0.framework_impl == self.framework_impl,
    {
        let mut ctx = self;
        let ghost start = ctx.handlers@;
        let ApiContext { handlers, framework_impl, .. } = other;
        let n = handlers.len();
        let ghost orig = handlers@;
        let mut rest = handlers;
        let mut k: usize = 0;
        while rest.len() > 0
            invariant
                ctx.wf(),
                ctx.path == self.path && ctx.tags == self.tags && ctx.pages == self.pages,
                ctx.framework_impl == self.framework_impl,
                orig.len() == n,
                k + rest@.len() == orig.len(),
                rest@ == orig.subrange(k as int, orig.len() as int),
                forall|i: int| 0 <= i < orig.len() ==> #[trigger] orig[i].pages.wf(),
                ctx.handlers@.len() == start.len() + k,
                ctx.handlers@.subrange(0, start.len() as int) == start,
                forall|i: int|
                    0 <= i < k ==> pushed(
                        self.path@,
                        self.tags@,
                        self.pages.items@,
                        orig[i],
                        #[trigger] ctx.handlers@[start.len() + i],
                    ),
            decreases rest@.len(),
        {
            let h = rest.remove(0);
            proof {
                assert(h == orig[k as int]);
            }
            let ghost before = ctx.handlers@;
            ctx.push_handler(h);
            proof {
                assert(ctx.handlers@.subrange(0, start.len() as int) =~= before.subrange(0, start.len() as int));
                assert forall|i: int| 0 <= i < k + 1 implies pushed(
                    self.path@,
                    self.tags@,
                    self.pages.items@,
                    orig[i],
                    #[trigger] ctx.handlers@[start.len() + i],
                ) by {
                    if i < k {
                        assert(ctx.handlers@[start.len() + i] == before[start.len() + i]);
                    }
                }
            }
            k = k + 1;
            proof {
                assert(rest@ =~= orig.subrange(k as int, orig.len() as int));
            }
        }
        (ctx, framework_impl)
    }

    /// Hands the handlers over for their pages, each path rewritten from the
    /// framework's `syntax` into OpenAPI's, and returns the framework's router.
    pub fn finish(self, syntax: PathSyntax) -> (r: (T, Vec<ContextHandler>))
        ensures
            r.0 == self.framework_impl,
            r.1@.len() == self.handlers@.len(),
            forall|i: int|
                0 <= i < r.1@.len() ==> {
                    &&& (#[trigger] r.1@[i]).path@ == path_in(syntax, self.handlers@[i].path@)
                    &&& r.1@[i].handler == self.handlers@[i].handler
                    &&& r.1@[i].tags == self.handlers@[i].tags
                    &&& r.1@[i].pages == self.handlers@[i].pages
                },
    {
        let ApiContext { handlers, framework_impl, .. } = self;
        let ghost orig = handlers@;
        let mut rest = handlers;
        let mut out: Vec<ContextHandler> = Vec::new();
        while rest.len() > 0
            invariant
                out@.len() + rest@.len() == orig.len(),
                rest@ == orig.subrange(out@.len() as int, orig.len() as int),
                forall|i: int|
                    0 <= i < out@.len() ==> {
                        &&& (#[trigger] out@[i]).path@ == path_in(syntax, orig[i].path@)
                        &&& out@[i].handler == orig[i].handler
                        &&& out@[i].tags == orig[i].tags
                        &&& out@[i].pages == orig[i].pages
                    },
            decreases rest@.len(),
        {
            let mut h = rest.remove(0);
            proof {
                assert(h == orig[out@.len() as int]);
            }
            match syntax {
                PathSyntax::Colon => {
                    h.path = framework_path_to_openapi(h.path.as_str());
                },
                PathSyntax::Braces => {},
            }
            out.push(h);
            proof {
                assert(rest@ =~= orig.subrange(out@.len() as int, orig.len() as int));
            }
        }
        (framework_impl, out)
    }
}


// ---------------------------------------------------------------------------
// Laws of path rewriting
// ---------------------------------------------------------------------------

/// Whether `s` holds the character `c`.
pub open spec fn has_char(s: Seq<char>, c: char) -> bool {
    exists|i: int| 0 <= i < s.len() && s[i] == c
}

proof fn lemma_plain_prefix(x: Seq<char>, rest: Seq<char>)
    requires
        !has_char(x, ':'),
    ensures
        openapi_path_from(x + rest, false) == x + openapi_path_from(rest, false),
    decreases x.len(),
{
    if x.len() > 0 {
        assert((x + rest).drop_first() =~= x.drop_first() + rest);
        assert((x + rest)[0] == x[0]);
        assert(!has_char(x.drop_first(), ':')) by {
            if has_char(x.drop_first(), ':') {
                let i = choose|i: int| 0 <= i < x.drop_first().len() && x.drop_first()[i] == ':';
                assert(x[i + 1] == ':');
            }
        }
        lemma_plain_prefix(x.drop_first(), rest);
        assert(x =~= seq![x[0]] + x.drop_first());
        assert(seq![x[0]] + (x.drop_first() + openapi_path_from(rest, false)) =~= x + openapi_path_from(rest, false));
    } else {
        assert(x + rest =~= rest);
        assert(x + openapi_path_from(rest, false) =~= openapi_path_from(rest, false));
    }
}

proof fn lemma_open_segment(n: Seq<char>, b: Seq<char>)
    requires
        !has_char(n, '/'),
        b.len() == 0 || b[0] == '/',
    ensures
        openapi_path_from(n + b, true) == n + seq!['}'] + openapi_path_from(b, false),
    decreases n.len(),
{
    if n.len() > 0 {
        assert((n + b).drop_first() =~= n.drop_first() + b);
        assert((n + b)[0] == n[0]);
        assert(n[0] != '/');
        assert(!has_char(n.drop_first(), '/')) by {
            if has_char(n.drop_first(), '/') {
                let i = choose|i: int| 0 <= i < n.drop_first().len() && n.drop_first()[i] == '/';
                assert(n[i + 1] == '/');
            }
        }
        lemma_open_segment(n.drop_first(), b);
        assert(seq![n[0]] + (n.drop_first() + seq!['}'] + openapi_path_from(b, false)) =~= n + seq!['}']
            + openapi_path_from(b, false));
    } else {
        assert(n + b =~= b);
        if b.len() == 0 {
            assert(n + seq!['}'] + openapi_path_from(b, false) =~= seq!['}']);
        } else {
            assert(seq!['}', '/'] + openapi_path_from(b.drop_first(), false) =~= n + seq!['}'] + (seq!['/']
                + openapi_path_from(b.drop_first(), false)));
        }
    }
}

/// A path whose only parameter is `:n` (running to the next `/` or the end)
/// is written `{n}` in OpenAPI's syntax, the rest of the path unchanged.
pub proof fn law_colon_parameter_braced(a: Seq<char>, n: Seq<char>, b: Seq<char>)
    requires
        !has_char(a, ':'),
        !has_char(n, '/'),
        !has_char(b, ':'),
        b.len() == 0 || b[0] == '/',
    ensures
        openapi_path(a + seq![':'] + n + b) == a + seq!['{'] + n + seq!['}'] + b,
{
    let rest = seq![':'] + n + b;
    assert(a + seq![':'] + n + b =~= a + rest);
    lemma_plain_prefix(a, rest);
    assert(rest.drop_first() =~= n + b);
    lemma_open_segment(n, b);
    lemma_plain_prefix(b, Seq::empty());
    assert(b + Seq::<char>::empty() =~= b);
    assert(openapi_path_from(Seq::<char>::empty(), false) =~= Seq::<char>::empty());
    assert(a + (seq!['{'] + (n + seq!['}'] + b)) =~= a + seq!['{'] + n + seq!['}'] + b);
}

proof fn lemma_segments_nonempty(y: Seq<char>, cur: Seq<char>)
    ensures
        segments_from(y, cur).len() >= 1,
    decreases y.len(),
{
    if y.len() > 0 {
        if y[0] == '/' {
            lemma_segments_nonempty(y.drop_first(), Seq::empty());
        } else {
            lemma_segments_nonempty(y.drop_first(), cur.push(y[0]));
        }
    }
}

proof fn lemma_segments_split(y: Seq<char>, z: Seq<char>, cur: Seq<char>)
    ensures
        segments_from(y + z, cur) == segments_from(y, cur).drop_last() + segments_from(
            z,
            segments_from(y, cur).last(),
        ),
    decreases y.len(),
{
    if y.len() == 0 {
        assert(y + z =~= z);
        assert(segments_from(y, cur).drop_last() =~= Seq::<Seq<char>>::empty());
        assert(Seq::<Seq<char>>::empty() + segments_from(z, cur) =~= segments_from(z, cur));
    } else {
        assert((y + z).drop_first() =~= y.drop_first() + z);
        assert((y + z)[0] == y[0]);
        if y[0] == '/' {
            let q = segments_from(y.drop_first(), Seq::empty());
            lemma_segments_split(y.drop_first(), z, Seq::empty());
            lemma_segments_nonempty(y.drop_first(), Seq::empty());
            assert((seq![cur] + q).drop_last() =~= seq![cur] + q.drop_last());
            assert((seq![cur] + q).last() == q.last());
            assert(seq![cur] + (q.drop_last() + segments_from(z, q.last())) =~= seq![cur] + q.drop_last()
                + segments_from(z, q.last()));
        } else {
            lemma_segments_split(y.drop_first(), z, cur.push(y[0]));
        }
    }
}

proof fn lemma_names_concat(s1: Seq<Seq<char>>, s2: Seq<Seq<char>>)
    ensures
        names_of(s1 + s2) == names_of(s1) + names_of(s2),
    decreases s2.len(),
{
    if s2.len() == 0 {
        assert(s1 + s2 =~= s1);
        assert(names_of(s1) + names_of(s2) =~= names_of(s1));
    } else {
        assert((s1 + s2).drop_last() =~= s1 + s2.drop_last());
        assert((s1 + s2).last() == s2.last());
        lemma_names_concat(s1, s2.drop_last());
        match braced_name(s2.last()) {
            Some(x) => {
                assert((names_of(s1) + names_of(s2.drop_last())).push(x) =~= names_of(s1) + names_of(
                    s2.drop_last(),
                ).push(x));
            },
            None => {},
        }
    }
}

proof fn lemma_no_close_no_names(y: Seq<char>, cur: Seq<char>)
    requires
        !has_char(y, '}'),
        !has_char(cur, '}'),
    ensures
        names_of(segments_from(y, cur)) == Seq::<Seq<char>>::empty(),
    decreases y.len(),
{
    if y.len() == 0 {
        if cur.len() >= 2 {
            assert(cur[cur.len() - 1] != '}');
        }
        assert(braced_name(cur) is None);
        assert(seq![cur].drop_last() =~= Seq::<Seq<char>>::empty());
        assert(names_of(Seq::<Seq<char>>::empty()) == Seq::<Seq<char>>::empty());
        assert(seq![cur].last() == cur);
        assert(names_of(seq![cur]) == names_of(seq![cur].drop_last()));
    } else {
        assert(y[0] != '}');
        assert(!has_char(y.drop_first(), '}')) by {
            if has_char(y.drop_first(), '}') {
                let i = choose|i: int| 0 <= i < y.drop_first().len() && y.drop_first()[i] == '}';
                assert(y[i + 1] == '}');
            }
        }
        if y[0] == '/' {
            lemma_no_close_no_names(y.drop_first(), Seq::empty());
            lemma_names_concat(seq![cur], segments_from(y.drop_first(), Seq::empty()));
            lemma_no_close_no_names(Seq::empty(), cur);
            assert(segments_from(Seq::empty(), cur) == seq![cur]);
            assert(Seq::<Seq<char>>::empty() + Seq::<Seq<char>>::empty() =~= Seq::<Seq<char>>::empty());
        } else {
            assert(!has_char(cur.push(y[0]), '}')) by {
                if has_char(cur.push(y[0]), '}') {
                    let i = choose|i: int| 0 <= i < cur.push(y[0]).len() && cur.push(y[0])[i] == '}';
                    if i < cur.len() {
                        assert(cur[i] == '}');
                    }
                }
            }
            lemma_no_close_no_names(y.drop_first(), cur.push(y[0]));
        }
    }
}

proof fn lemma_one_segment(y: Seq<char>, cur: Seq<char>)
    requires
        !has_char(y, '/'),
    ensures
        segments_from(y, cur) == seq![cur + y],
    decreases y.len(),
{
    if y.len() == 0 {
        assert(cur + y =~= cur);
    } else {
        assert(y[0] != '/');
        assert(!has_char(y.drop_first(), '/')) by {
            if has_char(y.drop_first(), '/') {
                let i = choose|i: int| 0 <= i < y.drop_first().len() && y.drop_first()[i] == '/';
                assert(y[i + 1] == '/');
            }
        }
        lemma_one_segment(y.drop_first(), cur.push(y[0]));
        assert(cur.push(y[0]) + y.drop_first() =~= cur + y);
    }
}

proof fn lemma_names_single(x: Seq<char>)
    ensures
        names_of(seq![x]) == match braced_name(x) {
            Some(n) => seq![n],
            None => Seq::<Seq<char>>::empty(),
        },
{
    assert(seq![x].drop_last() =~= Seq::<Seq<char>>::empty());
    assert(names_of(Seq::<Seq<char>>::empty()) == Seq::<Seq<char>>::empty());
    assert(seq![x].last() == x);
    match braced_name(x) {
        Some(n) => {
            assert(Seq::<Seq<char>>::empty().push(n) =~= seq![n]);
        },
        None => {},
    }
}

/// In a path `a{n}b` whose only braces are those around `n`, where `{n}` is a
/// whole segment, `n` is the one parameter name.
pub proof fn law_braced_parameter_named(a: Seq<char>, n: Seq<char>, b: Seq<char>)
    requires
        !has_char(a, '}'),
        a.len() == 0 || a.last() == '/',
        !has_char(n, '/'),
        !has_char(b, '}'),
        b.len() == 0 || b[0] == '/',
    ensures
        route_names(a + seq!['{'] + n + seq!['}'] + b) == seq![n],
{
    let e = Seq::<char>::empty();
    let k = seq!['{'] + n + seq!['}'];
    assert(!has_char(k, '/')) by {
        if has_char(k, '/') {
            let i = choose|i: int| 0 <= i < k.len() && k[i] == '/';
            if 0 < i < k.len() - 1 {
                assert(n[i - 1] == '/');
            }
        }
    }
    assert(a + seq!['{'] + n + seq!['}'] + b =~= a + (k + b));
    let p = segments_from(a, e);
    lemma_segments_split(a, k + b, e);
    lemma_segments_nonempty(a, e);
    if a.len() > 0 {
        let a1 = a.drop_last();
        assert(a =~= a1 + seq!['/']);
        lemma_segments_split(a1, seq!['/'], e);
        lemma_segments_nonempty(a1, e);
        let pa = segments_from(a1, e);
        assert(seq!['/'].drop_first() =~= e);
        assert(segments_from(seq!['/'], pa.last()) == seq![pa.last()] + segments_from(e, e));
        assert(p.last() == e);
    } else {
        assert(p == seq![e]);
    }
    lemma_segments_split(k, b, e);
    lemma_one_segment(k, e);
    assert(e + k =~= k);
    assert(seq![k].drop_last() =~= Seq::<Seq<char>>::empty());
    assert(Seq::<Seq<char>>::empty() + segments_from(b, k) =~= segments_from(b, k));
    lemma_no_close_no_names(a, e);
    lemma_names_concat(p.drop_last(), segments_from(k + b, e));
    assert(p =~= p.drop_last().push(p.last()));
    assert(names_of(p.drop_last()) =~= Seq::<Seq<char>>::empty()) by {
        assert(names_of(p).len() >= names_of(p.drop_last()).len());
    }
    assert(braced_name(k) == Some(n)) by {
        assert(k.subrange(1, k.len() - 1) =~= n);
    }
    lemma_names_single(k);
    if b.len() == 0 {
        assert(segments_from(b, k) == seq![k]);
    } else {
        assert(segments_from(b, k) == seq![k] + segments_from(b.drop_first(), e));
        assert(b.drop_first() =~= b.subrange(1, b.len() as int));
        assert(!has_char(b.drop_first(), '}')) by {
            if has_char(b.drop_first(), '}') {
                let i = choose|i: int| 0 <= i < b.drop_first().len() && b.drop_first()[i] == '}';
                assert(b[i + 1] == '}');
            }
        }
        assert(!has_char(e, '}'));
        lemma_no_close_no_names(b.drop_first(), e);
        lemma_names_concat(seq![k], segments_from(b.drop_first(), e));
        assert(seq![n] + Seq::<Seq<char>>::empty() =~= seq![n]);
    }
    assert(Seq::<Seq<char>>::empty() + seq![n] =~= seq![n]);
}
} // verus!
