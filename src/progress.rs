use vstd::prelude::*;
use crate::text::texts;

verus! {

/// Lines shown from the start of the transfer log.
pub const HEAD_LINES: usize = 7;

/// Lines shown from the end of the transfer log.
pub const TAIL_LINES: usize = 3;

/// What the progress query shows of the transfer log.
#[derive(Debug)]
pub enum ProgressView {
    /// The log is empty: no transfer is in progress.
    Idle,
    /// These lines of the log, in order.
    Lines(Vec<String>),
}

/// The lines shown of a log of `lines`: all of them where they fit in
/// `head + tail`, else the first `head` and the last `tail`.
pub open spec fn shown_lines(lines: Seq<Seq<char>>, head: nat, tail: nat) -> Seq<Seq<char>> {
    if lines.len() <= head + tail {
        lines
    } else {
        lines.subrange(0, head as int) + lines.subrange(lines.len() - tail, lines.len() as int)
    }
}

/// The head and tail view of the transfer log whose lines are `lines`.
pub fn progress_view(lines: &Vec<String>, head: usize, tail: usize) -> (r: ProgressView)
    ensures
        r is Idle <==> lines.len() == 0,
        r matches ProgressView::Lines(v) ==> texts(v@) == shown_lines(
            texts(lines@),
            head as nat,
            tail as nat,
        ),
{
    let n = lines.len();
    if n == 0 {
        return ProgressView::Idle;
    }
    let mut out: Vec<String> = Vec::new();
    let fits = n <= head || n - head <= tail;
    let mut i: usize = 0;
    while i < n
        invariant
            n == lines.len(),
            fits == (n <= head as int + tail as int),
            i <= n,
            texts(out@) == if fits {
                texts(lines@).subrange(0, i as int)
            } else if i <= head {
                texts(lines@).subrange(0, i as int)
            } else if i <= n - tail {
                texts(lines@).subrange(0, head as int)
            } else {
                texts(lines@).subrange(0, head as int) + texts(lines@).subrange(
                    n - tail,
                    i as int,
                )
            },
        decreases n - i,
    {
        let ghost before = texts(out@);
        let pushed = fits || i < head || i >= n - tail;
        if pushed {
            out.push(lines[i].clone());
        }
        proof {
            let l = texts(lines@);
            if pushed {
                assert(texts(out@) =~= before.push(l[i as int]));
            }
            if fits || i < head {
                assert(texts(out@) =~= l.subrange(0, i as int + 1));
            } else if i >= n - tail {
                if i == n - tail {
                    assert(texts(out@) =~= l.subrange(0, head as int) + l.subrange(
                        n - tail,
                        i as int + 1,
                    ));
                } else {
                    assert(texts(out@) =~= l.subrange(0, head as int) + l.subrange(
                        n - tail,
                        i as int + 1,
                    ));
                }
            } else {
                assert(texts(out@) =~= before);
            }
        }
        i = i + 1;
    }
    proof {
        let l = texts(lines@);
        if fits {
            assert(l.subrange(0, n as int) =~= l);
        } else {
            assert(l.subrange(n - tail, n as int) =~= l.subrange(l.len() - tail, l.len() as int));
        }
    }
    ProgressView::Lines(out)
}

} // verus!
