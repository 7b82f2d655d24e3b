//! Pixels: the blur that a face chip is degraded with, and the brightness of an
//! infrared frame.

use vstd::prelude::*;

use crate::text::{ascii_lower, opt_slice, same, to_ascii_lower};

verus! {

/// The side of a face chip, in pixels.
pub const CHIP_SIDE: usize = 112;

/// The bytes of a face chip: three for each pixel.
pub const CHIP_BYTES: usize = 37632;

/// Whether a pixel lies on the chip.
pub open spec fn on_chip(y: int, x: int) -> bool {
    0 <= y < 112 && 0 <= x < 112
}

/// The value of a color at a pixel; zero off the chip.
pub open spec fn pixel(chip: Seq<u8>, y: int, x: int, c: int) -> int {
    if on_chip(y, x) {
        chip[(y * 112 + x) * 3 + c] as int
    } else {
        0
    }
}

/// One where the pixel lies on the chip.
pub open spec fn counted(y: int, x: int) -> int {
    if on_chip(y, x) {
        1
    } else {
        0
    }
}

/// The three pixels of a row round `x`, added up.
pub open spec fn row_sum(chip: Seq<u8>, y: int, x: int, c: int) -> int {
    pixel(chip, y, x - 1, c) + pixel(chip, y, x, c) + pixel(chip, y, x + 1, c)
}

pub open spec fn row_count(y: int, x: int) -> int {
    counted(y, x - 1) + counted(y, x) + counted(y, x + 1)
}

/// The pixels of the window round a pixel, added up.
pub open spec fn window_sum(chip: Seq<u8>, y: int, x: int, c: int) -> int {
    row_sum(chip, y - 1, x, c) + row_sum(chip, y, x, c) + row_sum(chip, y + 1, x, c)
}

/// How many pixels of the window lie on the chip.
pub open spec fn window_count(y: int, x: int) -> int {
    row_count(y - 1, x) + row_count(y, x) + row_count(y + 1, x)
}

/// The average of the window round the pixel that byte `k` belongs to, in that
/// byte's color. The window ends at the edge of the chip.
pub open spec fn blurred(chip: Seq<u8>, k: int) -> int {
    let y = k / 336;
    let x = (k / 3) % 112;
    window_sum(chip, y, x, k % 3) / window_count(y, x)
}

fn tap(chip: &[u8], y: i32, x: i32, c: usize) -> (r: (u32, u32))
    requires
        chip@.len() >= 37632,
        -1 <= y <= 112,
        -1 <= x <= 112,
        c < 3,
    ensures
        r.0 == pixel(chip@, y as int, x as int, c as int),
        r.1 == counted(y as int, x as int),
        r.0 <= 255,
{
    if y >= 0 && y < 112 && x >= 0 && x < 112 {
        let at: usize = ((y as usize) * 112 + (x as usize)) * 3 + c;
        (chip[at] as u32, 1)
    } else {
        (0, 0)
    }
}

fn row(chip: &[u8], y: i32, x: i32, c: usize) -> (r: (u32, u32))
    requires
        chip@.len() >= 37632,
        -1 <= y <= 112,
        0 <= x < 112,
        c < 3,
    ensures
        r.0 == row_sum(chip@, y as int, x as int, c as int),
        r.1 == row_count(y as int, x as int),
        r.0 <= 765,
        r.1 <= 3,
{
    let a = tap(chip, y, x - 1, c);
    let b = tap(chip, y, x, c);
    let d = tap(chip, y, x + 1, c);
    (a.0 + b.0 + d.0, a.1 + b.1 + d.1)
}

/// Blurs a face chip with a box of three by three.
pub fn blur_chip(chip: &[u8]) -> (out: Vec<u8>)
    requires
        chip@.len() >= CHIP_BYTES,
    ensures
        out@.len() == chip@.len(),
        forall|k: int| 0 <= k < CHIP_BYTES ==> #[trigger] out@[k] == blurred(chip@, k),
        forall|k: int| CHIP_BYTES <= k < chip@.len() ==> #[trigger] out@[k] == chip@[k],
{
    let mut out: Vec<u8> = Vec::new();
    let mut k: usize = 0;
    while k < 37632
        invariant
            k <= 37632,
            chip@.len() >= 37632,
            out@.len() == k,
            forall|j: int| 0 <= j < k ==> #[trigger] out@[j] == blurred(chip@, j),
        decreases 37632 - k,
    {
        let y: i32 = (k / 336) as i32;
        let x: i32 = ((k / 3) % 112) as i32;
        let c: usize = k % 3;
        let above = row(chip, y - 1, x, c);
        let here = row(chip, y, x, c);
        let below = row(chip, y + 1, x, c);
        let sum: u32 = above.0 + here.0 + below.0;
        let count: u32 = above.1 + here.1 + below.1;
        proof {
            assert(on_chip(y as int, x as int));
            assert(count >= 1);
            assert(sum <= 255 * count);
            assert(sum / count <= 255) by (nonlinear_arith)
                requires
                    count >= 1,
                    sum <= 255 * count,
            ;
        }
        let value: u32 = sum / count;
        out.push(value as u8);
        k = k + 1;
    }
    while k < chip.len()
        invariant
            37632 <= k <= chip@.len(),
            out@.len() == k,
            forall|j: int| 0 <= j < 37632 ==> #[trigger] out@[j] == blurred(chip@, j),
            forall|j: int| 37632 <= j < k ==> #[trigger] out@[j] == chip@[j],
        decreases chip@.len() - k,
    {
        out.push(chip[k]);
        k = k + 1;
    }
    out
}

proof fn uniform_row(chip: Seq<u8>, v: u8, y: int, x: int, c: int)
    requires
        forall|yy: int, xx: int| on_chip(yy, xx) ==> #[trigger] pixel(chip, yy, xx, c) == v,
    ensures
        row_sum(chip, y, x, c) == v * row_count(y, x),
{
    let (l, m, r) = (counted(y, x - 1), counted(y, x), counted(y, x + 1));
    assert(v * 0 == 0 && v * 1 == v);
    assert(pixel(chip, y, x - 1, c) == v * l);
    assert(pixel(chip, y, x, c) == v * m);
    assert(pixel(chip, y, x + 1, c) == v * r);
    assert(v * l + v * m + v * r == v * (l + m + r)) by (nonlinear_arith);
}

/// A chip of one color stays as it is: every window, at the edge too, averages to
/// that color.
pub proof fn blurring_keeps_a_uniform_chip(chip: Seq<u8>, v: u8, k: int)
    requires
        chip.len() >= CHIP_BYTES,
        forall|i: int| 0 <= i < CHIP_BYTES ==> #[trigger] chip[i] == v,
        0 <= k < CHIP_BYTES,
    ensures
        blurred(chip, k) == v,
{
    let y = k / 336;
    let x = (k / 3) % 112;
    let c = k % 3;
    assert forall|yy: int, xx: int| on_chip(yy, xx) implies #[trigger] pixel(chip, yy, xx, c)
        == v by {
        let i = (yy * 112 + xx) * 3 + c;
        assert(0 <= i < 37632);
        assert(chip[i] == v);
    }
    let n = window_count(y, x);
    assert(on_chip(y, x));
    uniform_row(chip, v, y - 1, x, c);
    uniform_row(chip, v, y, x, c);
    uniform_row(chip, v, y + 1, x, c);
    let (a, b, d) = (row_count(y - 1, x), row_count(y, x), row_count(y + 1, x));
    assert(v * a + v * b + v * d == v * (a + b + d)) by (nonlinear_arith);
    assert((v * n) / n == v) by (nonlinear_arith)
        requires
            n >= 1,
    ;
}

/// The darkest and the brightest byte, and all of them added up. Without bytes
/// the darkest is the highest value there is, and the brightest the lowest.
pub open spec fn extremes(data: Seq<u8>) -> (u8, u8, nat)
    decreases data.len(),
{
    if data.len() == 0 {
        (255, 0, 0)
    } else {
        let (darkest, brightest, sum) = extremes(data.drop_last());
        let p = data.last();
        (
            if p < darkest {
                p
            } else {
                darkest
            },
            if p > brightest {
                p
            } else {
                brightest
            },
            sum + p as nat,
        )
    }
}

/// Measures the brightness of a frame.
pub fn brightness(data: &[u8]) -> (r: (u8, u8, u128))
    ensures
        (r.0, r.1, r.2 as nat) == extremes(data@),
{
    let mut darkest: u8 = 255;
    let mut brightest: u8 = 0;
    let mut sum: u128 = 0;
    let mut i: usize = 0;
    let n: usize = data.len();
    proof {
        assert(data@.take(0) =~= Seq::<u8>::empty());
    }
    while i < n
        invariant
            n == data@.len(),
            i <= n,
            (darkest, brightest, sum as nat) == extremes(data@.take(i as int)),
            sum <= 255 * i,
        decreases n - i,
    {
        let p: u8 = data[i];
        proof {
            assert(data@.take(i + 1).drop_last() =~= data@.take(i as int));
            assert(data@.take(i + 1).last() == p);
        }
        if p < darkest {
            darkest = p;
        }
        if p > brightest {
            brightest = p;
        }
        sum = sum + p as u128;
        i = i + 1;
    }
    proof {
        assert(data@.take(n as int) =~= data@);
    }
    (darkest, brightest, sum)
}

/// Every byte of a frame lies between its darkest and its brightest, and both
/// occur.
pub proof fn extremes_bound_every_byte(data: Seq<u8>)
    ensures
        forall|i: int|
            0 <= i < data.len() ==> extremes(data).0 <= #[trigger] data[i] <= extremes(data).1,
        data.len() > 0 ==> data.contains(extremes(data).0) && data.contains(extremes(data).1),
    decreases data.len(),
{
    if data.len() > 0 {
        let rest = data.drop_last();
        extremes_bound_every_byte(rest);
        assert forall|i: int| 0 <= i < data.len() implies extremes(data).0 <= #[trigger] data[i]
            <= extremes(data).1 by {
            if i < rest.len() {
                assert(rest[i] == data[i]);
            }
        }
        assert(data[data.len() - 1] == data.last());
        assert(data.contains(data.last()));
        if rest.len() > 0 {
            let a = choose|i: int| 0 <= i < rest.len() && rest[i] == extremes(rest).0;
            let b = choose|i: int| 0 <= i < rest.len() && rest[i] == extremes(rest).1;
            assert(data[a] == rest[a]);
            assert(data[b] == rest[b]);
        }
    }
}

/// The file extensions that are images.
pub open spec fn image_extension(ext: Option<Seq<char>>) -> bool {
    match ext {
        Some(e) => {
            let e = ascii_lower(e);
            e == "jpg"@ || e == "jpeg"@ || e == "png"@ || e == "bmp"@
        },
        None => false,
    }
}

/// Whether a file with that extension counts as an image.
pub fn is_image(ext: Option<&str>) -> (r: bool)
    ensures
        r == image_extension(opt_slice(ext)),
{
    match ext {
        Some(e) => {
            let e = to_ascii_lower(e);
            let e = e.as_str();
            same(e, "jpg") || same(e, "jpeg") || same(e, "png") || same(e, "bmp")
        },
        None => false,
    }
}

/// A byte weighs once in every window round a pixel at most one row and one column
/// away, in its own color, and in no other window.
pub proof fn a_byte_weighs_in_the_windows_round_it(
    chip: Seq<u8>,
    v: u8,
    py: int,
    px: int,
    pc: int,
    y: int,
    x: int,
    c: int,
)
    requires
        chip.len() == CHIP_BYTES,
        on_chip(py, px),
        on_chip(y, x),
        0 <= pc < 3,
        0 <= c < 3,
    ensures
        ({
            let k = (py * 112 + px) * 3 + pc;
            window_sum(chip.update(k, v), y, x, c) - window_sum(chip, y, x, c) == (if c == pc && -1
                <= py - y <= 1 && -1 <= px - x <= 1 {
                v - chip[k]
            } else {
                0int
            })
        }),
{
    let k = (py * 112 + px) * 3 + pc;
    let new = chip.update(k, v);
    assert forall|yy: int, xx: int|
        #![trigger pixel(new, yy, xx, c)]
        pixel(new, yy, xx, c) == (if yy == py && xx == px && c == pc {
            v as int
        } else {
            pixel(chip, yy, xx, c)
        }) by {
        if on_chip(yy, xx) {
            let i = (yy * 112 + xx) * 3 + c;
            assert(0 <= i < 37632);
            assert(0 <= k < 37632);
            assert(i == k ==> yy == py && xx == px && c == pc);
        }
    }
    assert(pixel(chip, py, px, pc) == chip[k] as int);
    assert(window_sum(new, y, x, c) == pixel(new, y - 1, x - 1, c) + pixel(new, y - 1, x, c)
        + pixel(new, y - 1, x + 1, c) + pixel(new, y, x - 1, c) + pixel(new, y, x, c) + pixel(
        new,
        y,
        x + 1,
        c,
    ) + pixel(new, y + 1, x - 1, c) + pixel(new, y + 1, x, c) + pixel(new, y + 1, x + 1, c));
}

/// A window holds nine pixels inside the chip, six at an edge and four in a corner.
pub proof fn a_window_ends_at_the_edge(y: int, x: int)
    requires
        on_chip(y, x),
    ensures
        window_count(y, x) == (if 0 < y < 111 {
            3int
        } else {
            2
        }) * (if 0 < x < 111 {
            3int
        } else {
            2
        }),
{
}

/// The sum is that of all bytes: it starts at zero and each byte adds itself.
pub proof fn every_byte_is_added_up(data: Seq<u8>, p: u8)
    ensures
        extremes(Seq::empty()).2 == 0,
        extremes(data.push(p)).2 == extremes(data).2 + p,
{
    assert(data.push(p).drop_last() =~= data);
}

/// An extension is an image's however its letters are written, and exactly for the
/// four formats that are read.
pub proof fn an_extension_is_read_in_any_case(ext: Seq<char>)
    ensures
        image_extension(Some(ext)) == image_extension(Some(ascii_lower(ext))),
        image_extension(Some(ext)) ==> 3 <= ext.len() <= 4,
        image_extension(Some("jpg"@)),
        image_extension(Some("jpeg"@)),
        image_extension(Some("png"@)),
        image_extension(Some("bmp"@)),
        !image_extension(None),
{
    reveal_strlit("jpg");
    reveal_strlit("jpeg");
    reveal_strlit("png");
    reveal_strlit("bmp");
    assert(ascii_lower(ascii_lower(ext)) =~= ascii_lower(ext));
    assert(ascii_lower("jpg"@) =~= "jpg"@);
    assert(ascii_lower("jpeg"@) =~= "jpeg"@);
    assert(ascii_lower("png"@) =~= "png"@);
    assert(ascii_lower("bmp"@) =~= "bmp"@);
}

} // verus!
