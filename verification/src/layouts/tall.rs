//! The first window on the left half of the viewport, the others one below
//! the other on the right half.

use vstd::prelude::*;
use crate::layouts::Layout;
use crate::stack::{lemma_from_traversal_keeps_focus, Stack, StackView};
use crate::window::{Geometry, Position, Size, Window};

verus! {

/// The height of each window on the right half, where `n` windows share the viewport.
pub open spec fn row_height(view: Geometry, n: int) -> int {
    if n > 1 {
        view.size.height as int / (n - 1)
    } else {
        view.size.height as int
    }
}

/// The place of window `k` among `n` windows on `view`. The first window has
/// the left half at full height, or the whole viewport when it is alone. The
/// others have equal shares of the right half, from the top down.
pub open spec fn place(view: Geometry, n: int, k: int) -> Geometry {
    let half = view.size.width / 2;
    if k == 0 {
        Geometry {
            position: view.position,
            size: Size { width: if n == 1 { view.size.width } else { half }, height: view.size.height },
        }
    } else {
        Geometry {
            position: Position {
                x: (view.position.x + half) as i32,
                y: (view.position.y + row_height(view, n) * (k - 1)) as i32,
            },
            size: Size { width: half, height: row_height(view, n) as u32 },
        }
    }
}

/// The rows on the right half stay within the height of the viewport.
pub proof fn lemma_rows_within_view(view: Geometry, n: int, k: int)
    requires
        1 <= k < n,
    ensures
        0 <= row_height(view, n) <= view.size.height,
        0 <= row_height(view, n) * (k - 1),
        row_height(view, n) * (k - 1) + row_height(view, n) <= view.size.height,
{
    let h = view.size.height as int;
    let rows = n - 1;
    let row = h / rows;
    assert(0 <= row <= h && row * rows <= h) by (nonlinear_arith)
        requires
            row == h / rows,
            rows >= 1,
            h >= 0,
    ;
    assert(0 <= row * (k - 1) && row * (k - 1) + row <= row * rows) by (nonlinear_arith)
        requires
            0 <= row,
            1 <= k <= rows,
    ;
}

/// Places the windows side by side: the first on the left half, the others
/// in rows on the right half. All of them show.
pub fn handle_layout<W>(view: &Geometry, windows: Stack<Window<W>>) -> (arranged: Stack<Window<W>>)
    requires
        view.fits(),
    ensures
        arranged@ == Layout::Tall.arrange(*view, windows@),
{
    let ghost before = windows@;
    let n = windows.len();
    let half: u32 = view.size.width / 2;
    let row: u32 = if n <= 1 {
        view.size.height
    } else if (n - 1) as u64 > view.size.height as u64 {
        0
    } else {
        view.size.height / ((n - 1) as u32)
    };
    assert(row == row_height(*view, n as int)) by {
        if n > 1 && (n - 1) as u64 > view.size.height as u64 {
            assert(view.size.height as int / (n - 1) as int == 0) by (nonlinear_arith)
                requires
                    0 <= view.size.height as int,
                    (n - 1) as int > view.size.height as int,
            ;
        }
    }
    let mut cursor = windows.into_iter();
    let mut pairs: Vec<(bool, Window<W>)> = Vec::new();
    while cursor.len() > 0
        invariant
            before.wf(),
            view.fits(),
            n == before.items.len(),
            half == view.size.width / 2,
            row == row_height(*view, n as int),
            pairs@.len() + cursor@.len() == n,
            cursor@ == before.traversal().skip(pairs@.len() as int),
            forall|i: int|
                0 <= i < pairs@.len() ==> #[trigger] pairs@[i] == (
                    before.current == Some(i),
                    Layout::Tall.arrange(*view, before).items[i],
                ),
        decreases cursor@.len(),
    {
        let k = pairs.len();
        let (focused, window) = cursor.next().unwrap();
        let at = if k == 0 {
            Geometry::new(
                view.position.x,
                view.position.y,
                if n == 1 { view.size.width } else { half },
                view.size.height,
            )
        } else {
            proof {
                lemma_rows_within_view(*view, n as int, k as int);
            }
            let down: i64 = if row == 0 {
                0
            } else {
                assert(k - 1 <= row * (k - 1)) by (nonlinear_arith)
                    requires
                        row >= 1,
                        k >= 1,
                ;
                row as i64 * (k - 1) as i64
            };
            assert(down == row_height(*view, n as int) * (k - 1)) by (nonlinear_arith)
                requires
                    row == row_height(*view, n as int),
                    down == if row == 0 { 0 } else { row * (k - 1) },
            ;
            Geometry::new(
                (view.position.x as i64 + half as i64) as i32,
                (view.position.y as i64 + down) as i32,
                half,
                row,
            )
        };
        pairs.push((focused, window.set_view(at).visible(true)));
        assert(cursor@ =~= before.traversal().skip(k + 1));
    }
    let arranged = Stack::from_traversal(pairs);
    proof {
        lemma_from_traversal_keeps_focus(before, pairs@);
        assert(arranged@.items =~= Layout::Tall.arrange(*view, before).items);
    }
    arranged
}

/// On a viewport at the origin, the first window is as high as the viewport
/// and half as wide, or as wide when it is alone. Each other window is half
/// as wide and has an equal share of the height, and they follow one another
/// from the top down.
pub proof fn lemma_tall_at_origin<W>(view: Geometry, windows: StackView<Window<W>>)
    requires
        view.fits(),
        view.position == (Position { x: 0, y: 0 }),
        windows.items.len() > 0,
    ensures
        ({
            let n = windows.items.len() as int;
            let arranged = Layout::Tall.arrange(view, windows);
            let width = view.size.width;
            let height = view.size.height as int;
            &&& arranged.items[0].view == Some(
                Geometry {
                    position: Position { x: 0, y: 0 },
                    size: Size { width: if n > 1 { width / 2 } else { width }, height: view.size.height },
                },
            )
            &&& forall|k: int|
                1 <= k < n ==> {
                    let at = (#[trigger] arranged.items[k]).view.unwrap();
                    &&& at.size.width == width / 2
                    &&& at.size.height == height / (n - 1)
                    &&& at.position.x == width / 2
                    &&& at.position.y == (height / (n - 1)) * (k - 1)
                }
        }),
{
    let n = windows.items.len() as int;
    assert forall|k: int| 1 <= k < n implies {
        let at = (#[trigger] Layout::Tall.arrange(view, windows).items[k]).view.unwrap();
        &&& at.size.width == view.size.width / 2
        &&& at.size.height == view.size.height as int / (n - 1)
        &&& at.position.x == view.size.width / 2
        &&& at.position.y == (view.size.height as int / (n - 1)) * (k - 1)
    } by {
        lemma_rows_within_view(view, n, k);
    }
}

} // verus!
