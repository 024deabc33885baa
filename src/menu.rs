use vstd::prelude::*;
use crate::error::Error;
use crate::style::{
    blue, blue_of, clear_line, clear_line_seq, cursor_hide, cursor_up_one, green, green_of,
    hide_seq, up_one_seq,
};

verus! {

/// A key as the menus tell keys apart.
#[derive(Clone, Copy, Debug, PartialEq, Eq, Structural)]
pub enum MenuKey {
    Up,
    Down,
    Space,
    Enter,
    Other,
}

/// Where the highlight goes from `h` among `n` options on `key`: up and down wrap around.
pub open spec fn moved(h: nat, n: nat, key: MenuKey) -> nat {
    match key {
        MenuKey::Up => ((h + n - 1) as nat) % n,
        MenuKey::Down => (h + 1) % n,
        _ => h,
    }
}

/// The highlight after the keys `keys`, pressed in order from `h`.
pub open spec fn replay(h: nat, n: nat, keys: Seq<MenuKey>) -> nat
    decreases keys.len(),
{
    if keys.len() == 0 {
        h
    } else {
        moved(replay(h, n, keys.drop_last()), n, keys.last())
    }
}

/// The highlight among `n` options after one more key.
fn step_highlight(h: usize, n: usize, key: MenuKey) -> (r: usize)
    requires
        h < n,
    ensures
        r == moved(h as nat, n as nat, key),
        r < n,
{
    match key {
        MenuKey::Up => {
            if h == 0 {
                proof {
                    vstd::arithmetic::div_mod::lemma_small_mod((n - 1) as nat, n as nat);
                }
                n - 1
            } else {
                proof {
                    vstd::arithmetic::div_mod::lemma_mod_add_multiples_vanish(h - 1, n as int);
                    vstd::arithmetic::div_mod::lemma_small_mod((h - 1) as nat, n as nat);
                }
                h - 1
            }
        },
        MenuKey::Down => {
            if h + 1 == n {
                proof {
                    vstd::arithmetic::div_mod::lemma_mod_self_0(n as int);
                }
                0
            } else {
                proof {
                    vstd::arithmetic::div_mod::lemma_small_mod((h + 1) as nat, n as nat);
                }
                h + 1
            }
        },
        _ => h,
    }
}

/// A row of the single-choice menu: the highlighted one marked `=> ` in blue, the others indented.
pub open spec fn choice_row(option: Seq<char>, highlighted: bool) -> Seq<char> {
    (if highlighted {
        blue_of(seq!['=', '>', ' '] + option)
    } else {
        seq![' ', ' ', ' '] + option
    }) + hide_seq() + seq!['\r', '\n']
}

/// All rows of the single-choice menu with `h` highlighted.
pub open spec fn choice_rows(options: Seq<String>, h: nat) -> Seq<char>
    decreases options.len(),
{
    if options.len() == 0 {
        Seq::empty()
    } else {
        choice_rows(options.drop_last(), h) + choice_row(
            options.last()@,
            h == options.len() - 1,
        )
    }
}

/// Erase the `n` lines above the cursor, bottom to top.
pub open spec fn erase_text(n: nat) -> Seq<char>
    decreases n,
{
    if n == 0 {
        Seq::empty()
    } else {
        erase_text((n - 1) as nat) + up_one_seq() + clear_line_seq()
    }
}

/// The confirmed choice, alone on its line in green.
pub open spec fn confirmed_text(option: Seq<char>) -> Seq<char> {
    green_of(seq!['\r', '=', '>', ' '] + option + seq!['\r']) + seq!['\n']
}

/// Erasing the `n` lines a menu has drawn.
pub fn erase_lines(n: usize) -> (r: String)
    ensures
        r@ == erase_text(n as nat),
{
    let mut r = String::new();
    let mut i: usize = 0;
    while i < n
        invariant
            i <= n,
            r@ == erase_text(i as nat),
        decreases n - i,
    {
        r.append(cursor_up_one().as_str());
        r.append(clear_line().as_str());
        i = i + 1;
        assert(r@ =~= erase_text(i as nat));
    }
    r
}

/// The state of a single-choice menu: how many options it offers, and which one is highlighted.
pub struct SelectMenu {
    count: usize,
    highlighted: usize,
}

impl SelectMenu {
    /// The number of options.
    pub closed spec fn count_spec(&self) -> nat {
        self.count as nat
    }

    /// The index of the highlighted option.
    pub closed spec fn highlighted_spec(&self) -> nat {
        self.highlighted as nat
    }

    /// The highlight always names one of the options, and there is at least one.
    pub open spec fn wf(&self) -> bool {
        self.count_spec() >= 1 && self.highlighted_spec() < self.count_spec()
    }

    /// A menu over `count` options with the first highlighted; none at all is refused.
    pub fn new(count: usize) -> (r: Result<SelectMenu, Error>)
        ensures
            count == 0 <==> r is Err,
            r matches Err(e) ==> e is InvalidOptionSet,
            r matches Ok(m) ==> m.wf() && m.count_spec() == count && m.highlighted_spec() == 0,
    {
        if count == 0 {
            Err(Error::InvalidOptionSet)
        } else {
            Ok(SelectMenu { count, highlighted: 0 })
        }
    }

    /// The number of options.
    pub fn count(&self) -> (r: usize)
        ensures
            r == self.count_spec(),
    {
        self.count
    }

    /// The index of the highlighted option.
    pub fn highlighted(&self) -> (r: usize)
        ensures
            r == self.highlighted_spec(),
    {
        self.highlighted
    }

    /// Take one key: up and down move the highlight, wrapping around; enter confirms,
    /// which the result tells; any other key changes nothing.
    pub fn press(&mut self, key: MenuKey) -> (done: bool)
        requires
            old(self).wf(),
        ensures
            final(self).wf(),
            final(self).count_spec() == old(self).count_spec(),
            final(self).highlighted_spec() == moved(
                old(self).highlighted_spec(),
                old(self).count_spec(),
                key,
            ),
            done == (key == MenuKey::Enter),
    {
        self.highlighted = step_highlight(self.highlighted, self.count, key);
        key == MenuKey::Enter
    }

    /// All rows of the menu as they are drawn before each key is read.
    pub fn rows(&self, options: &Vec<String>) -> (r: String)
        requires
            options@.len() == self.count_spec(),
        ensures
            r@ == choice_rows(options@, self.highlighted_spec()),
    {
        let mut r = String::new();
        let mut i: usize = 0;
        while i < options.len()
            invariant
                i <= options@.len(),
                r@ == choice_rows(options@.subrange(0, i as int), self.highlighted_spec()),
            decreases options.len() - i,
        {
            proof {
                reveal_strlit("=> ");
                reveal_strlit("   ");
                reveal_strlit("\r\n");
            }
            let mut row = if i == self.highlighted {
                let mut line = String::from_str("=> ");
                line.append(options[i].as_str());
                assert(line@ =~= seq!['=', '>', ' '] + options@[i as int]@);
                blue(line.as_str())
            } else {
                let mut line = String::from_str("   ");
                line.append(options[i].as_str());
                assert(line@ =~= seq![' ', ' ', ' '] + options@[i as int]@);
                line
            };
            row.append(cursor_hide().as_str());
            row.append("\r\n");
            assert(row@ =~= choice_row(options@[i as int]@, i == self.highlighted_spec()));
            r.append(row.as_str());
            proof {
                let next = options@.subrange(0, i + 1);
                assert(next.drop_last() =~= options@.subrange(0, i as int));
                assert(next.last() == options@[i as int]);
                assert(choice_rows(next, self.highlighted_spec()) == choice_rows(
                    options@.subrange(0, i as int),
                    self.highlighted_spec(),
                ) + choice_row(options@[i as int]@, i == self.highlighted_spec()));
            }
            i = i + 1;
        }
        assert(options@.subrange(0, options@.len() as int) =~= options@);
        r
    }

    /// The redraw after a key that did not confirm: erase the rows, then draw them anew.
    pub fn redraw(&self, options: &Vec<String>) -> (r: String)
        requires
            options@.len() == self.count_spec(),
        ensures
            r@ == erase_text(self.count_spec()) + seq!['\r'] + choice_rows(
                options@,
                self.highlighted_spec(),
            ),
    {
        proof {
            reveal_strlit("\r");
        }
        let mut r = erase_lines(self.count);
        r.append("\r");
        r.append(self.rows(options).as_str());
        r
    }

    /// The close after enter: erase the rows and leave the chosen option alone, in green.
    pub fn confirm(&self, options: &Vec<String>) -> (r: String)
        requires
            self.wf(),
            options@.len() == self.count_spec(),
        ensures
            r@ == erase_text(self.count_spec()) + confirmed_text(
                options@[self.highlighted_spec() as int]@,
            ),
    {
        proof {
            reveal_strlit("\r=> ");
            reveal_strlit("\r");
            reveal_strlit("\n");
        }
        let mut line = String::from_str("\r=> ");
        line.append(options[self.highlighted].as_str());
        line.append("\r");
        let mut r = erase_lines(self.count);
        r.append(green(line.as_str()).as_str());
        r.append("\n");
        assert(r@ =~= erase_text(self.count_spec()) + confirmed_text(
            options@[self.highlighted_spec() as int]@,
        ));
        r
    }
}

/// The marks after pressing space on option `h`: its mark flips, the others stay.
pub open spec fn toggled(marks: Seq<bool>, h: nat) -> Seq<bool> {
    marks.update(h as int, !marks[h as int])
}

/// The indices among the first `k` whose mark is set, in increasing order.
pub open spec fn chosen_upto(marks: Seq<bool>, k: nat) -> Seq<usize>
    decreases k,
{
    if k == 0 {
        Seq::empty()
    } else {
        chosen_upto(marks, (k - 1) as nat) + (if marks[k - 1] {
            seq![(k - 1) as usize]
        } else {
            Seq::empty()
        })
    }
}

/// A row of the multiple-choice menu: `[X] ` or `[ ] ` by its mark, in blue when highlighted.
pub open spec fn check_row(option: Seq<char>, checked: bool, highlighted: bool) -> Seq<char> {
    let body = (if checked {
        seq!['[', 'X', ']', ' ']
    } else {
        seq!['[', ' ', ']', ' ']
    }) + option;
    seq!['\r'] + (if highlighted {
        blue_of(body)
    } else {
        body
    }) + seq!['\n']
}

/// All rows of the multiple-choice menu with `h` highlighted and the marks `marks`.
pub open spec fn check_rows(options: Seq<String>, marks: Seq<bool>, h: nat) -> Seq<char>
    decreases options.len(),
{
    if options.len() == 0 {
        Seq::empty()
    } else {
        check_rows(options.drop_last(), marks, h) + check_row(
            options.last()@,
            marks[options.len() - 1],
            h == options.len() - 1,
        )
    }
}

/// The lines left once the choice is confirmed: each chosen option, in order, in green.
pub open spec fn kept_rows(options: Seq<String>, chosen: Seq<usize>) -> Seq<char>
    decreases chosen.len(),
{
    if chosen.len() == 0 {
        Seq::empty()
    } else {
        kept_rows(options, chosen.drop_last()) + green_of(
            seq!['\r', '[', 'X', ']', ' '] + options[chosen.last() as int]@ + seq!['\r'],
        ) + seq!['\n']
    }
}

/// The state of a multiple-choice menu: the options' count, the highlight, and a mark per option.
pub struct MultiMenu {
    count: usize,
    highlighted: usize,
    marks: Vec<bool>,
}

impl MultiMenu {
    /// The number of options.
    pub closed spec fn count_spec(&self) -> nat {
        self.count as nat
    }

    /// The index of the highlighted option.
    pub closed spec fn highlighted_spec(&self) -> nat {
        self.highlighted as nat
    }

    /// Whether each option is selected, by index.
    pub closed spec fn marks_spec(&self) -> Seq<bool> {
        self.marks@
    }

    /// The highlight names an option, there is one, and each option has its mark.
    pub open spec fn wf(&self) -> bool {
        &&& self.count_spec() >= 1
        &&& self.highlighted_spec() < self.count_spec()
        &&& self.marks_spec().len() == self.count_spec()
    }

    /// A menu over `count` options, the first highlighted and none selected; none at all is refused.
    pub fn new(count: usize) -> (r: Result<MultiMenu, Error>)
        ensures
            count == 0 <==> r is Err,
            r matches Err(e) ==> e is InvalidOptionSet,
            r matches Ok(m) ==> {
                &&& m.wf()
                &&& m.count_spec() == count
                &&& m.highlighted_spec() == 0
                &&& m.marks_spec() == Seq::new(count as nat, |_i: int| false)
            },
    {
        if count == 0 {
            return Err(Error::InvalidOptionSet);
        }
        let mut marks: Vec<bool> = Vec::new();
        let mut i: usize = 0;
        while i < count
            invariant
                i <= count,
                marks@ == Seq::new(i as nat, |_i: int| false),
            decreases count - i,
        {
            marks.push(false);
            i = i + 1;
            assert(marks@ =~= Seq::new(i as nat, |_i: int| false));
        }
        Ok(MultiMenu { count, highlighted: 0, marks })
    }

    /// The number of options.
    pub fn count(&self) -> (r: usize)
        ensures
            r == self.count_spec(),
    {
        self.count
    }

    /// The index of the highlighted option.
    pub fn highlighted(&self) -> (r: usize)
        ensures
            r == self.highlighted_spec(),
    {
        self.highlighted
    }

    /// Whether option `i` is selected.
    pub fn is_selected(&self, i: usize) -> (r: bool)
        requires
            self.wf(),
            i < self.count_spec(),
        ensures
            r == self.marks_spec()[i as int],
    {
        self.marks[i]
    }

    /// Take one key: up and down move the highlight, wrapping around; space flips the
    /// highlighted option's mark; enter confirms, which the result tells; other keys change nothing.
    pub fn press(&mut self, key: MenuKey) -> (done: bool)
        requires
            old(self).wf(),
        ensures
            final(self).wf(),
            final(self).count_spec() == old(self).count_spec(),
            final(self).highlighted_spec() == moved(
                old(self).highlighted_spec(),
                old(self).count_spec(),
                key,
            ),
            final(self).marks_spec() == (if key == MenuKey::Space {
                toggled(old(self).marks_spec(), old(self).highlighted_spec())
            } else {
                old(self).marks_spec()
            }),
            done == (key == MenuKey::Enter),
    {
        if key == MenuKey::Space {
            let h = self.highlighted;
            let flipped = !self.marks[h];
            self.marks.set(h, flipped);
        }
        self.highlighted = step_highlight(self.highlighted, self.count, key);
        key == MenuKey::Enter
    }

    /// The indices of the selected options, in the options' own order.
    pub fn chosen(&self) -> (r: Vec<usize>)
        requires
            self.wf(),
        ensures
            r@ == chosen_upto(self.marks_spec(), self.count_spec()),
    {
        let mut r: Vec<usize> = Vec::new();
        let mut i: usize = 0;
        while i < self.count
            invariant
                self.wf(),
                i <= self.count_spec(),
                r@ == chosen_upto(self.marks_spec(), i as nat),
            decreases self.count - i,
        {
            if self.marks[i] {
                r.push(i);
            }
            i = i + 1;
            assert(r@ =~= chosen_upto(self.marks_spec(), i as nat));
        }
        r
    }

    /// All rows of the menu.
    pub fn rows(&self, options: &Vec<String>) -> (r: String)
        requires
            self.wf(),
            options@.len() == self.count_spec(),
        ensures
            r@ == check_rows(options@, self.marks_spec(), self.highlighted_spec()),
    {
        let mut r = String::new();
        let mut i: usize = 0;
        while i < options.len()
            invariant
                self.wf(),
                options@.len() == self.count_spec(),
                i <= options@.len(),
                r@ == check_rows(
                    options@.subrange(0, i as int),
                    self.marks_spec(),
                    self.highlighted_spec(),
                ),
            decreases options.len() - i,
        {
            proof {
                reveal_strlit("[X] ");
                reveal_strlit("[ ] ");
                reveal_strlit("\r");
                reveal_strlit("\n");
            }
            let mut body = if self.marks[i] {
                String::from_str("[X] ")
            } else {
                String::from_str("[ ] ")
            };
            body.append(options[i].as_str());
            let mut row = String::from_str("\r");
            if i == self.highlighted {
                row.append(blue(body.as_str()).as_str());
            } else {
                row.append(body.as_str());
            }
            row.append("\n");
            assert(row@ =~= check_row(
                options@[i as int]@,
                self.marks_spec()[i as int],
                i == self.highlighted_spec(),
            ));
            r.append(row.as_str());
            proof {
                let next = options@.subrange(0, i + 1);
                assert(next.drop_last() =~= options@.subrange(0, i as int));
                assert(next.last() == options@[i as int]);
            }
            i = i + 1;
        }
        assert(options@.subrange(0, options@.len() as int) =~= options@);
        r
    }

    /// The first drawing: hide the cursor, then the rows.
    pub fn draw(&self, options: &Vec<String>) -> (r: String)
        requires
            self.wf(),
            options@.len() == self.count_spec(),
        ensures
            r@ == hide_seq() + check_rows(options@, self.marks_spec(), self.highlighted_spec()),
    {
        let mut r = cursor_hide();
        r.append(self.rows(options).as_str());
        r
    }

    /// The redraw after a key that did not confirm: erase the rows, then draw them anew.
    pub fn redraw(&self, options: &Vec<String>) -> (r: String)
        requires
            self.wf(),
            options@.len() == self.count_spec(),
        ensures
            r@ == erase_text(self.count_spec()) + seq!['\r'] + check_rows(
                options@,
                self.marks_spec(),
                self.highlighted_spec(),
            ),
    {
        proof {
            reveal_strlit("\r");
        }
        let mut r = erase_lines(self.count);
        r.append("\r");
        r.append(self.rows(options).as_str());
        r
    }

    /// The close after enter: erase the rows and leave each chosen option on a line, in green.
    pub fn confirm(&self, options: &Vec<String>) -> (r: String)
        requires
            self.wf(),
            options@.len() == self.count_spec(),
        ensures
            r@ == erase_text(self.count_spec()) + seq!['\r'] + kept_rows(
                options@,
                chosen_upto(self.marks_spec(), self.count_spec()),
            ),
    {
        proof {
            reveal_strlit("\r");
        }
        let chosen = self.chosen();
        proof {
            lemma_chosen_below(self.marks_spec(), self.count_spec());
        }
        let mut r = erase_lines(self.count);
        r.append("\r");
        let ghost head = r@;
        let mut j: usize = 0;
        while j < chosen.len()
            invariant
                options@.len() == self.count_spec(),
                j <= chosen@.len(),
                forall|k: int| 0 <= k < chosen@.len() ==> chosen@[k] < options@.len(),
                r@ == head + kept_rows(options@, chosen@.subrange(0, j as int)),
            decreases chosen.len() - j,
        {
            proof {
                reveal_strlit("\r[X] ");
                reveal_strlit("\r");
                reveal_strlit("\n");
            }
            let mut line = String::from_str("\r[X] ");
            line.append(options[chosen[j]].as_str());
            line.append("\r");
            r.append(green(line.as_str()).as_str());
            r.append("\n");
            proof {
                let next = chosen@.subrange(0, j + 1);
                assert(next.drop_last() =~= chosen@.subrange(0, j as int));
                assert(next.last() == chosen@[j as int]);
            }
            j = j + 1;
            assert(r@ =~= head + kept_rows(options@, chosen@.subrange(0, j as int)));
        }
        assert(chosen@.subrange(0, chosen@.len() as int) =~= chosen@);
        r
    }
}

/// Every chosen index is below the bound it was chosen under.
proof fn lemma_chosen_below(marks: Seq<bool>, k: nat)
    requires
        k <= usize::MAX,
    ensures
        forall|i: int| 0 <= i < chosen_upto(marks, k).len() ==> chosen_upto(marks, k)[i] < k,
    decreases k,
{
    if k > 0 {
        lemma_chosen_below(marks, (k - 1) as nat);
        let prev = chosen_upto(marks, (k - 1) as nat);
        let tail: Seq<usize> = if marks[k - 1] {
            seq![(k - 1) as usize]
        } else {
            Seq::empty()
        };
        assert(chosen_upto(marks, k) == prev + tail);
        assert forall|i: int| 0 <= i < chosen_upto(marks, k).len() implies chosen_upto(
            marks,
            k,
        )[i] < k by {
            if i < prev.len() {
                assert(chosen_upto(marks, k)[i] == prev[i]);
            } else {
                assert(chosen_upto(marks, k)[i] == tail[i - prev.len()]);
            }
        }
    }
}

/// `k` presses of the same key.
pub open spec fn presses(key: MenuKey, k: nat) -> Seq<MenuKey> {
    Seq::new(k, |_i: int| key)
}

/// From the first option, `k` presses of down highlight option `k mod n`.
pub proof fn lemma_downs_wrap(n: nat, k: nat)
    requires
        n >= 1,
    ensures
        replay(0, n, presses(MenuKey::Down, k)) == k % n,
    decreases k,
{
    if k == 0 {
        vstd::arithmetic::div_mod::lemma_small_mod(0, n);
    } else {
        let km = (k - 1) as nat;
        assert(presses(MenuKey::Down, k).drop_last() =~= presses(MenuKey::Down, km));
        lemma_downs_wrap(n, km);
        vstd::arithmetic::div_mod::lemma_add_mod_noop(km as int, 1, n as int);
        vstd::arithmetic::div_mod::lemma_mod_twice(km as int + 1, n as int);
        if n == 1 {
            assert(1int % 1 == 0);
        } else {
            vstd::arithmetic::div_mod::lemma_small_mod(1, n);
        }
    }
}

/// From the first option, `k` presses of up highlight option `(n - k mod n) mod n`.
pub proof fn lemma_ups_wrap(n: nat, k: nat)
    requires
        n >= 1,
    ensures
        replay(0, n, presses(MenuKey::Up, k)) == (n - k % n) % (n as int),
    decreases k,
{
    vstd::arithmetic::div_mod::lemma_mod_self_0(n as int);
    if k == 0 {
        vstd::arithmetic::div_mod::lemma_small_mod(0, n);
    } else {
        let km = (k - 1) as nat;
        assert(presses(MenuKey::Up, k).drop_last() =~= presses(MenuKey::Up, km));
        lemma_ups_wrap(n, km);
        let a = km % n;
        let h = replay(0, n, presses(MenuKey::Up, km));
        vstd::arithmetic::div_mod::lemma_add_mod_noop(km as int, 1, n as int);
        if n == 1 {
            assert(h == 0);
            assert(((h + n - 1) as nat) % n == 0);
            assert(k % n == 0);
        } else {
            vstd::arithmetic::div_mod::lemma_small_mod(1, n);
            if a == 0 {
                assert(h == 0);
                vstd::arithmetic::div_mod::lemma_small_mod((n - 1) as nat, n);
                vstd::arithmetic::div_mod::lemma_small_mod(1, n);
                assert(k % n == 1);
            } else {
                vstd::arithmetic::div_mod::lemma_small_mod((n - a) as nat, n);
                assert(h == n - a);
                vstd::arithmetic::div_mod::lemma_mod_add_multiples_vanish(n - a - 1, n as int);
                vstd::arithmetic::div_mod::lemma_small_mod((n - a - 1) as nat, n);
                if a + 1 < n {
                    vstd::arithmetic::div_mod::lemma_small_mod((a + 1) as nat, n);
                    assert(k % n == a + 1);
                    vstd::arithmetic::div_mod::lemma_small_mod((n - (a + 1)) as nat, n);
                } else {
                    assert(k % n == 0);
                }
            }
        }
    }
}

/// Pressing space twice on the same option leaves every mark as it was, so an option
/// toggled twice is unselected again.
pub proof fn lemma_toggle_twice(marks: Seq<bool>, h: nat)
    requires
        h < marks.len(),
    ensures
        toggled(toggled(marks, h), h) == marks,
{
    assert(toggled(toggled(marks, h), h) =~= marks);
}

/// With no option marked, confirming yields no option at all.
pub proof fn lemma_nothing_chosen(n: nat)
    ensures
        chosen_upto(Seq::new(n, |_i: int| false), n) == Seq::<usize>::empty(),
{
    lemma_nothing_chosen_upto(n, n);
}

proof fn lemma_nothing_chosen_upto(n: nat, k: nat)
    requires
        k <= n,
    ensures
        chosen_upto(Seq::new(n, |_i: int| false), k) == Seq::<usize>::empty(),
    decreases k,
{
    if k > 0 {
        lemma_nothing_chosen_upto(n, (k - 1) as nat);
        assert(chosen_upto(Seq::new(n, |_i: int| false), k) =~= Seq::<usize>::empty());
    }
}

} // verus!
