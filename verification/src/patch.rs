//! The reversible configuration patcher: rewrites `key=value` lines of
//! a configuration buffer according to a tuning profile, snapshots the
//! pristine content exactly once, and restores it on demand. Every line
//! of the output is terminated with CRLF; a line whose trimmed key the
//! profile overrides is replaced by `key=value` with the trimmed key,
//! and every other line passes through unchanged.
use crate::lines::{
    find_first, is_space, no_byte, split_lines, strip_cr, trim, CR, EQ, NL,
    lemma_find_first_at, lemma_find_first_bounds, lemma_split_lines_no_nl,
    lemma_split_lines_step, lemma_trim_back_preserves_no_byte, lemma_trim_back_take,
    lemma_trim_front_preserves_no_byte, lemma_trim_front_skip, lemma_trim_idempotent,
};
use crate::profile::{lemma_override_value_clean, override_for, override_value, Mode};
use vstd::prelude::*;

verus! {

/// The key of a configuration line: what stands before the first `=`,
/// with surrounding ASCII whitespace trimmed.
pub open spec fn line_key(l: Seq<u8>) -> Seq<u8> {
    trim(l.take(find_first(l, EQ)))
}

/// One line rewritten: where the line holds an `=` and its trimmed key
/// is overridden by the profile, the line becomes `key=value`; any
/// other line is kept as it stands. No line terminator is included.
pub open spec fn rewrite_line(l: Seq<u8>, mode: Mode) -> Seq<u8> {
    if find_first(l, EQ) < l.len() {
        match override_for(mode, line_key(l)) {
            Some(v) => line_key(l) + seq![EQ] + v,
            None => l,
        }
    } else {
        l
    }
}

/// The rewritten lines joined back together, each line closed by CRLF.
pub open spec fn render_lines(ls: Seq<Seq<u8>>, mode: Mode) -> Seq<u8>
    decreases ls.len(),
{
    if ls.len() == 0 {
        seq![]
    } else {
        rewrite_line(ls[0], mode) + seq![CR, NL] + render_lines(ls.drop_first(), mode)
    }
}

/// The whole buffer rewritten for a profile: split into lines, each
/// line rewritten, all lines joined with CRLF terminators.
pub open spec fn rewrite_config_spec(c: Seq<u8>, mode: Mode) -> Seq<u8> {
    render_lines(split_lines(c), mode)
}

/// A rewritten line never holds a line feed, so joining lines opens no
/// new line.
pub proof fn lemma_rewrite_line_no_nl(l: Seq<u8>, mode: Mode)
    requires
        no_byte(l, NL),
    ensures
        no_byte(rewrite_line(l, mode), NL),
{
    let ff = find_first(l, EQ);
    lemma_find_first_bounds(l, EQ);
    if ff < l.len() && override_for(mode, line_key(l)) is Some {
        let head = l.take(ff);
        assert(forall|j: int| 0 <= j < head.len() ==> head[j] == l[j]);
        assert(no_byte(head, NL));
        lemma_trim_front_preserves_no_byte(head, NL);
        lemma_trim_back_preserves_no_byte(crate::lines::trim_front(head), NL);
        lemma_override_value_clean(mode, line_key(l));
    }
}

/// Rewriting one line a second time changes nothing: the replacement
/// line carries the same trimmed key, which the profile maps to the
/// same value.
pub proof fn lemma_rewrite_line_idempotent(l: Seq<u8>, mode: Mode)
    ensures
        rewrite_line(rewrite_line(l, mode), mode) == rewrite_line(l, mode),
{
    let ff = find_first(l, EQ);
    lemma_find_first_bounds(l, EQ);
    if ff < l.len() {
        match override_for(mode, line_key(l)) {
            Some(v) => {
                let head = l.take(ff);
                let k = line_key(l);
                let l2 = k + seq![EQ] + v;
                assert(forall|j: int| 0 <= j < head.len() ==> head[j] == l[j]);
                assert(no_byte(head, EQ));
                lemma_trim_front_preserves_no_byte(head, EQ);
                lemma_trim_back_preserves_no_byte(crate::lines::trim_front(head), EQ);
                assert(no_byte(k, EQ));
                assert(l2[k.len() as int] == EQ);
                assert(forall|j: int| 0 <= j < k.len() ==> l2[j] == k[j]);
                lemma_find_first_at(l2, EQ, k.len() as int);
                assert(l2.take(k.len() as int) =~= k);
                lemma_trim_idempotent(head);
                assert(line_key(l2) == k);
                assert(rewrite_line(l2, mode) =~= l2);
            },
            None => {
            },
        }
    }
}

/// Splitting a rendered buffer recovers exactly the rewritten lines.
pub proof fn lemma_split_render(ls: Seq<Seq<u8>>, mode: Mode)
    requires
        forall|k: int| 0 <= k < ls.len() ==> no_byte(#[trigger] ls[k], NL),
    ensures
        split_lines(render_lines(ls, mode)) == ls.map_values(
            |l: Seq<u8>| rewrite_line(l, mode),
        ),
    decreases ls.len(),
{
    let f = |l: Seq<u8>| rewrite_line(l, mode);
    if ls.len() == 0 {
        assert(render_lines(ls, mode) =~= Seq::<u8>::empty());
        assert(split_lines(render_lines(ls, mode)) =~= ls.map_values(f));
    } else {
        let head = rewrite_line(ls[0], mode);
        let rest = render_lines(ls.drop_first(), mode);
        lemma_rewrite_line_no_nl(ls[0], mode);
        assert(render_lines(ls, mode) =~= head + seq![CR, NL] + rest);
        lemma_split_lines_step(head, rest);
        assert(forall|k: int|
            0 <= k < ls.drop_first().len() ==> no_byte(#[trigger] ls.drop_first()[k], NL));
        lemma_split_render(ls.drop_first(), mode);
        assert(split_lines(render_lines(ls, mode)) =~= seq![head] + ls.drop_first().map_values(
            f,
        ));
        assert(ls.map_values(f) =~= seq![head] + ls.drop_first().map_values(f));
    }
}

/// Rendering the once-rewritten lines again changes nothing.
proof fn lemma_render_map(ls: Seq<Seq<u8>>, mode: Mode)
    ensures
        render_lines(ls.map_values(|l: Seq<u8>| rewrite_line(l, mode)), mode) == render_lines(
            ls,
            mode,
        ),
    decreases ls.len(),
{
    let f = |l: Seq<u8>| rewrite_line(l, mode);
    if ls.len() == 0 {
        assert(ls.map_values(f) =~= ls);
    } else {
        lemma_rewrite_line_idempotent(ls[0], mode);
        lemma_render_map(ls.drop_first(), mode);
        assert(ls.map_values(f).drop_first() =~= ls.drop_first().map_values(f));
        assert(render_lines(ls.map_values(f), mode) == rewrite_line(f(ls[0]), mode) + seq![
            CR,
            NL,
        ] + render_lines(ls.map_values(f).drop_first(), mode));
    }
}

/// Rewriting a buffer twice for one profile gives the same bytes as
/// rewriting it once: the patch is idempotent.
pub proof fn lemma_rewrite_config_idempotent(c: Seq<u8>, mode: Mode)
    ensures
        rewrite_config_spec(rewrite_config_spec(c, mode), mode) == rewrite_config_spec(c, mode),
{
    let ls = split_lines(c);
    lemma_split_lines_no_nl(c);
    lemma_split_render(ls, mode);
    lemma_render_map(ls, mode);
}

/// Index of the first occurrence of `b` in `v`, or `v.len()` if absent.
pub fn find_byte(v: &Vec<u8>, b: u8) -> (r: usize)
    ensures
        r as int == find_first(v@, b),
{
    let mut i: usize = 0;
    while i < v.len()
        invariant
            0 <= i <= v.len(),
            forall|j: int| 0 <= j < i ==> v@[j] != b,
        decreases v.len() - i,
    {
        if v[i] == b {
            proof {
                lemma_find_first_at(v@, b, i as int);
            }
            return i;
        }
        i = i + 1;
    }
    proof {
        lemma_find_first_at(v@, b, v.len() as int);
    }
    v.len()
}

fn is_space_exec(b: u8) -> (r: bool)
    ensures
        r == is_space(b),
{
    b == 32 || b == 9 || b == 10 || b == 11 || b == 12 || b == 13
}

/// A copy of `v[from..to]`.
fn subvec(v: &Vec<u8>, from: usize, to: usize) -> (r: Vec<u8>)
    requires
        from <= to <= v.len(),
    ensures
        r@ == v@.subrange(from as int, to as int),
{
    let mut r: Vec<u8> = Vec::new();
    let mut i: usize = from;
    while i < to
        invariant
            from <= i <= to <= v.len(),
            r@ =~= v@.subrange(from as int, i as int),
        decreases to - i,
    {
        r.push(v[i]);
        i = i + 1;
        proof {
            assert(r@ =~= v@.subrange(from as int, i as int));
        }
    }
    r
}

fn clone_bytes(v: &Vec<u8>) -> (r: Vec<u8>)
    ensures
        r@ == v@,
{
    let r = subvec(v, 0, v.len());
    proof {
        assert(v@.subrange(0, v.len() as int) =~= v@);
    }
    r
}

/// The first `end` bytes of `v`, trimmed of ASCII whitespace on both
/// sides.
fn trim_bytes(v: &Vec<u8>, end: usize) -> (r: Vec<u8>)
    requires
        end <= v.len(),
    ensures
        r@ == trim(v@.take(end as int)),
{
    let ghost s = v@.take(end as int);
    proof {
        assert(forall|j: int| 0 <= j < end ==> s[j] == v@[j]);
    }
    let mut k1: usize = 0;
    while k1 < end && is_space_exec(v[k1])
        invariant
            0 <= k1 <= end <= v.len(),
            s == v@.take(end as int),
            forall|j: int| 0 <= j < end ==> s[j] == v@[j],
            forall|j: int| 0 <= j < k1 ==> is_space(s[j]),
        decreases end - k1,
    {
        k1 = k1 + 1;
    }
    proof {
        lemma_trim_front_skip(s, k1 as int);
    }
    if k1 == end {
        proof {
            assert(s.skip(k1 as int) =~= Seq::<u8>::empty());
        }
        let r: Vec<u8> = Vec::new();
        proof {
            assert(r@ =~= trim(s));
        }
        return r;
    }
    let mut k2: usize = end;
    while k2 > k1 && is_space_exec(v[k2 - 1])
        invariant
            k1 <= k2 <= end <= v.len(),
            s == v@.take(end as int),
            forall|j: int| 0 <= j < end ==> s[j] == v@[j],
            forall|j: int| k2 <= j < end ==> is_space(s[j]),
        decreases k2,
    {
        k2 = k2 - 1;
    }
    proof {
        assert(!is_space(s[k1 as int]));
        assert(k2 > k1);
        let u = s.skip(k1 as int);
        assert(forall|j: int|
            k2 - k1 <= j < u.len() ==> is_space(#[trigger] u[j]) == is_space(s[j + k1]));
        lemma_trim_back_take(u, k2 - k1 as int);
        assert(u.take(k2 - k1 as int) =~= v@.subrange(k1 as int, k2 as int));
    }
    subvec(v, k1, k2)
}

/// One line rewritten for a profile, exactly as `rewrite_line` has it.
pub fn rewrite_line_exec(l: &Vec<u8>, mode: &Mode) -> (r: Vec<u8>)
    ensures
        r@ == rewrite_line(l@, *mode),
{
    let ff = find_byte(l, EQ);
    proof {
        lemma_find_first_bounds(l@, EQ);
    }
    if ff < l.len() {
        let key = trim_bytes(l, ff);
        proof {
            assert(key@ == line_key(l@));
        }
        match override_value(mode, &key) {
            Some(v) => {
                let mut out = key;
                out.push(EQ);
                let mut tail = v;
                out.append(&mut tail);
                proof {
                    assert(out@ =~= rewrite_line(l@, *mode));
                }
                out
            },
            None => clone_bytes(l),
        }
    } else {
        clone_bytes(l)
    }
}

/// The lines of `c`, split as `split_lines` has them.
pub fn split_lines_exec(c: &Vec<u8>) -> (r: Vec<Vec<u8>>)
    ensures
        r.deep_view() == split_lines(c@),
{
    let mut r: Vec<Vec<u8>> = Vec::new();
    let mut cur: Vec<u8> = Vec::new();
    let mut start: usize = 0;
    let mut i: usize = 0;
    proof {
        assert(c@.skip(0) =~= c@);
        assert(r.deep_view() =~~= Seq::<Seq<u8>>::empty());
        assert(split_lines(c@) =~~= r.deep_view() + split_lines(c@.skip(0)));
    }
    while i < c.len()
        invariant
            0 <= start <= i <= c.len(),
            cur@ =~= c@.subrange(start as int, i as int),
            forall|j: int| start <= j < i ==> c@[j] != NL,
            split_lines(c@) =~~= r.deep_view() + split_lines(c@.skip(start as int)),
        decreases c.len() - i,
    {
        let b = c[i];
        if b == NL {
            proof {
                let rest = c@.skip(start as int);
                assert(forall|j: int| 0 <= j < rest.len() ==> rest[j] == c@[j + start]);
                lemma_find_first_at(rest, NL, i - start as int);
                assert(rest.take(i - start as int) =~= cur@);
                assert(rest.skip(i - start + 1) =~= c@.skip(i + 1));
                assert(split_lines(rest) == seq![strip_cr(cur@)] + split_lines(c@.skip(i + 1)));
            }
            let mut line = cur;
            if line.len() > 0 && line[line.len() - 1] == CR {
                let _ = line.pop();
                proof {
                    assert(line@ =~= strip_cr(c@.subrange(start as int, i as int)));
                }
            }
            let ghost old_r = r.deep_view();
            r.push(line);
            proof {
                assert(r.deep_view() =~~= old_r.push(line@));
                assert(r.deep_view() + split_lines(c@.skip(i + 1)) =~~= old_r + (seq![
                    strip_cr(c@.subrange(start as int, i as int)),
                ] + split_lines(c@.skip(i + 1))));
            }
            cur = Vec::new();
            start = i + 1;
        } else {
            cur.push(b);
        }
        i = i + 1;
        proof {
            assert(cur@ =~= c@.subrange(start as int, i as int));
        }
    }
    if cur.len() > 0 {
        proof {
            let rest = c@.skip(start as int);
            assert(forall|j: int| 0 <= j < rest.len() ==> rest[j] == c@[j + start]);
            lemma_find_first_at(rest, NL, rest.len() as int);
            assert(rest =~= cur@);
            assert(split_lines(rest) == seq![cur@]);
        }
        let ghost old_r = r.deep_view();
        let ghost curv = cur@;
        r.push(cur);
        proof {
            assert(r.deep_view() =~~= old_r.push(curv));
            assert(split_lines(c@) =~~= r.deep_view());
        }
    } else {
        proof {
            assert(c@.skip(start as int) =~= Seq::<u8>::empty());
            assert(split_lines(c@.skip(start as int)) =~~= Seq::<Seq<u8>>::empty());
            assert(split_lines(c@) =~~= r.deep_view());
        }
    }
    r
}

/// Rendering one more line extends the rendered buffer at its end.
proof fn lemma_render_snoc(ls: Seq<Seq<u8>>, l: Seq<u8>, mode: Mode)
    ensures
        render_lines(ls.push(l), mode) == render_lines(ls, mode) + rewrite_line(l, mode) + seq![
            CR,
            NL,
        ],
    decreases ls.len(),
{
    let p = ls.push(l);
    if ls.len() == 0 {
        assert(p[0] == l);
        assert(p.drop_first() =~= Seq::<Seq<u8>>::empty());
        assert(render_lines(p.drop_first(), mode) =~= Seq::<u8>::empty());
        assert(render_lines(p, mode) == rewrite_line(p[0], mode) + seq![CR, NL] + render_lines(
            p.drop_first(),
            mode,
        ));
        assert(render_lines(ls, mode) =~= Seq::<u8>::empty());
        assert(render_lines(p, mode) =~= render_lines(ls, mode) + rewrite_line(l, mode) + seq![
            CR,
            NL,
        ]);
    } else {
        lemma_render_snoc(ls.drop_first(), l, mode);
        assert(p.drop_first() =~= ls.drop_first().push(l));
        assert(p[0] == ls[0]);
        assert(render_lines(p, mode) == rewrite_line(ls[0], mode) + seq![CR, NL] + render_lines(
            ls.drop_first().push(l),
            mode,
        ));
        assert(render_lines(p, mode) =~= render_lines(ls, mode) + rewrite_line(l, mode) + seq![
            CR,
            NL,
        ]);
    }
}

/// The whole buffer rewritten for a profile: every line whose trimmed
/// key the profile overrides becomes `key=value`, every other line is
/// kept, and every line of the result is closed by CRLF.
pub fn rewrite_config(content: &Vec<u8>, mode: &Mode) -> (r: Vec<u8>)
    ensures
        r@ == rewrite_config_spec(content@, *mode),
{
    let lines_v = split_lines_exec(content);
    let ghost ls = split_lines(content@);
    let mut out: Vec<u8> = Vec::new();
    let mut i: usize = 0;
    while i < lines_v.len()
        invariant
            0 <= i <= lines_v.len(),
            lines_v.deep_view() == ls,
            out@ =~= render_lines(ls.take(i as int), *mode),
        decreases lines_v.len() - i,
    {
        let line_out = rewrite_line_exec(&lines_v[i], mode);
        proof {
            assert(lines_v@[i as int]@ == ls[i as int]);
        }
        let mut tail = line_out;
        out.append(&mut tail);
        out.push(CR);
        out.push(NL);
        proof {
            lemma_render_snoc(ls.take(i as int), ls[i as int], *mode);
            assert(ls.take(i + 1) =~= ls.take(i as int).push(ls[i as int]));
        }
        i = i + 1;
    }
    proof {
        assert(ls.take(lines_v.len() as int) =~= ls);
    }
    out
}

/// A structured failure of the patcher: the target is missing, or the
/// surrounding input/output step failed.
#[derive(Clone, Copy, PartialEq, Eq, Structural, Debug)]
pub enum CfgError {
    NotFound,
    Io,
}

/// The abstract state of the patcher: the bytes of the live
/// configuration file, where it exists, and the bytes of the backup
/// file, where one was taken.
pub struct PatcherState {
    pub live: Option<Seq<u8>>,
    pub backup: Option<Seq<u8>>,
}

/// What one apply does to the state: with no live file nothing moves;
/// otherwise the pristine content is snapshotted into the backup where
/// no backup exists yet (never refreshed afterwards), and the live
/// content is rewritten for the profile.
pub open spec fn apply_transition(s: PatcherState, mode: Mode) -> PatcherState {
    match s.live {
        Some(c) => PatcherState {
            live: Some(rewrite_config_spec(c, mode)),
            backup: if s.backup is Some {
                s.backup
            } else {
                Some(c)
            },
        },
        None => s,
    }
}

/// An apply succeeds exactly when the live file exists.
pub open spec fn apply_succeeds(s: PatcherState) -> bool {
    s.live is Some
}

/// What a restore does: with a backup, the live content becomes the
/// backup's bytes and the backup stays in place, so a restore is
/// repeatable; with none, nothing moves.
pub open spec fn restore_transition(s: PatcherState) -> PatcherState {
    match s.backup {
        Some(b) => PatcherState { live: Some(b), backup: s.backup },
        None => s,
    }
}

/// A restore succeeds exactly when a backup exists.
pub open spec fn restore_succeeds(s: PatcherState) -> bool {
    s.backup is Some
}

/// The state after a whole run of applies, first mode first.
pub open spec fn apply_all(s: PatcherState, modes: Seq<Mode>) -> PatcherState
    decreases modes.len(),
{
    if modes.len() == 0 {
        s
    } else {
        apply_all(apply_transition(s, modes[0]), modes.drop_first())
    }
}

/// Applying the same profile twice leaves exactly the state the first
/// apply left: the file content is byte-identical and the backup is not
/// refreshed.
pub proof fn lemma_apply_idempotent(s: PatcherState, mode: Mode)
    ensures
        apply_transition(apply_transition(s, mode), mode) == apply_transition(s, mode),
{
    match s.live {
        Some(c) => {
            lemma_rewrite_config_idempotent(c, mode);
        },
        None => {
        },
    }
}

/// A backup, once taken, is never moved by any later run of applies.
pub proof fn lemma_backup_stable(s: PatcherState, modes: Seq<Mode>)
    requires
        s.backup is Some,
    ensures
        apply_all(s, modes).backup == s.backup,
    decreases modes.len(),
{
    if modes.len() > 0 {
        lemma_backup_stable(apply_transition(s, modes[0]), modes.drop_first());
    }
}

/// From a pristine state, any number of applies keeps the original
/// bytes in the backup, and a restore then brings the live file back to
/// exactly those bytes.
pub proof fn lemma_restore_recovers_original(orig: Seq<u8>, modes: Seq<Mode>)
    requires
        modes.len() > 0,
    ensures
        ({
            let start = PatcherState { live: Some(orig), backup: None };
            let end = apply_all(start, modes);
            end.backup == Some(orig) && restore_transition(end).live == Some(orig)
        }),
{
    let start = PatcherState { live: Some(orig), backup: None };
    let first = apply_transition(start, modes[0]);
    lemma_backup_stable(first, modes.drop_first());
}

/// A restore with no backup fails and moves nothing.
pub proof fn lemma_restore_without_backup(s: PatcherState)
    requires
        s.backup is None,
    ensures
        !restore_succeeds(s),
        restore_transition(s) == s,
{
}

/// The patcher over in-memory content: `live` mirrors the target
/// configuration file (`None` where it does not exist) and `backup`
/// mirrors the backup file beside it.
pub struct ConfigPatcher {
    pub live: Option<Vec<u8>>,
    pub backup: Option<Vec<u8>>,
}

/// The bytes an optional buffer holds.
pub open spec fn opt_bytes(o: Option<Vec<u8>>) -> Option<Seq<u8>> {
    match o {
        Some(v) => Some(v@),
        None => None,
    }
}

impl View for ConfigPatcher {
    type V = PatcherState;

    open spec fn view(&self) -> PatcherState {
        PatcherState { live: opt_bytes(self.live), backup: opt_bytes(self.backup) }
    }
}

impl ConfigPatcher {
    /// A patcher over the given live content, before any backup exists.
    pub fn new(live: Option<Vec<u8>>) -> (r: ConfigPatcher)
        ensures
            r@.live == opt_bytes(live),
            r@.backup is None,
    {
        ConfigPatcher { live, backup: None }
    }

    /// Rewrite the live content for a profile, after snapshotting the
    /// pristine content into the backup if no backup exists yet. Fails
    /// exactly when there is no live content, and then moves nothing.
    pub fn apply(&mut self, mode: Mode) -> (r: Result<(), CfgError>)
        ensures
            final(self)@ == apply_transition(old(self)@, mode),
            r is Ok <==> apply_succeeds(old(self)@),
            r matches Err(e) ==> e == CfgError::NotFound,
    {
        match self.live.take() {
            None => Err(CfgError::NotFound),
            Some(content) => {
                let newc = rewrite_config(&content, &mode);
                if self.backup.is_none() {
                    self.backup = Some(content);
                }
                self.live = Some(newc);
                Ok(())
            },
        }
    }

    /// Overwrite the live content with the backup's bytes, leaving the
    /// backup in place. Fails exactly when no backup exists ("nothing
    /// to restore"), and then moves nothing.
    pub fn restore(&mut self) -> (r: Result<(), CfgError>)
        ensures
            final(self)@ == restore_transition(old(self)@),
            r is Ok <==> restore_succeeds(old(self)@),
            r matches Err(e) ==> e == CfgError::NotFound,
    {
        match self.backup.take() {
            None => Err(CfgError::NotFound),
            Some(b) => {
                let copy = clone_bytes(&b);
                self.backup = Some(b);
                self.live = Some(copy);
                Ok(())
            },
        }
    }
}

} // verus!
