use crate::canvas::{
    canvas_dimensions, canvas_get, canvas_new, canvas_pixels, canvas_put, canvas_size, color_of,
    in_canvas, Canvas,
};
use crate::camera::Camera;
use crate::color::{tone_spec, Color};
use crate::geometry::HittableList;
use crate::integrator::{ray_color_vec3_float, scene_light, Setting};
use crate::measure::Units;
use crate::scene::is_total;
use crate::vector::Vec3;
use std::ops::{Add, Div, Mul, Neg, Sub};
use vstd::arithmetic::div_mod::{lemma_div_is_ordered, lemma_div_multiples_vanish};
use vstd::prelude::*;
use vstd::std_specs::ops::{AddSpec, DivSpec};

verus! {

/// The first column of a worker's share when `width` columns are split
/// among `workers` workers. Worker `i` renders the columns from
/// `column_start(i, ..)` up to, not including, `column_start(i + 1, ..)`,
/// so the last worker ends at `width` and takes what the division leaves.
pub open spec fn column_start(worker: int, width: int, workers: int) -> int {
    worker * width / workers
}

/// The shares begin at 0, end at `width`, and none begins before an earlier
/// one.
pub proof fn lemma_column_start_ordered(i: int, j: int, width: int, workers: int)
    requires
        0 <= i <= j <= workers,
        0 < workers,
        0 <= width,
    ensures
        0 <= column_start(i, width, workers) <= column_start(j, width, workers) <= width,
        column_start(0, width, workers) == 0,
        column_start(workers, width, workers) == width,
{
    assert(0 <= i * width <= j * width <= workers * width) by (nonlinear_arith)
        requires
            0 <= i <= j <= workers,
            0 <= width,
    ;
    lemma_div_is_ordered(0, i * width, workers);
    lemma_div_is_ordered(i * width, j * width, workers);
    lemma_div_is_ordered(j * width, workers * width, workers);
    lemma_div_multiples_vanish(width, workers);
    assert(0 * width == 0);
    assert(0int / workers == 0);
}

/// Column `x` lies in the share of worker `worker`.
pub open spec fn owns(worker: int, x: int, width: int, workers: int) -> bool {
    0 <= worker < workers && column_start(worker, width, workers) <= x < column_start(
        worker + 1,
        width,
        workers,
    )
}

/// Every column belongs to the share of exactly one worker.
pub proof fn lemma_column_has_one_owner(x: int, width: int, workers: int) -> (owner: int)
    requires
        0 <= x < width,
        0 < workers,
    ensures
        owns(owner, x, width, workers),
        forall|other: int| #[trigger] owns(other, x, width, workers) ==> other == owner,
{
    let owner = owner_from(x, width, workers, 0);
    assert forall|other: int| #[trigger] owns(other, x, width, workers) implies other == owner by {
        if other < owner {
            lemma_column_start_ordered(other + 1, owner, width, workers);
        } else if owner < other {
            lemma_column_start_ordered(owner + 1, other, width, workers);
        }
    }
    owner
}

proof fn owner_from(x: int, width: int, workers: int, from: int) -> (owner: int)
    requires
        0 <= x < width,
        0 <= from < workers,
        column_start(from, width, workers) <= x,
    ensures
        from <= owner < workers,
        column_start(owner, width, workers) <= x < column_start(owner + 1, width, workers),
    decreases workers - from,
{
    lemma_column_start_ordered(from + 1, workers, width, workers);
    lemma_column_start_ordered(0, from, width, workers);
    if x < column_start(from + 1, width, workers) {
        from
    } else {
        owner_from(x, width, workers, from + 1)
    }
}

/// The columns that worker `worker` of `workers` renders: the first, and the
/// one after the last.
pub fn column_range(worker: u32, width: u32, workers: u32) -> (range: (u32, u32))
    requires
        worker < workers,
    ensures
        range.0 == column_start(worker as int, width as int, workers as int),
        range.1 == column_start(worker + 1, width as int, workers as int),
        range.0 <= range.1 <= width,
        worker == 0 ==> range.0 == 0,
        worker == workers - 1 ==> range.1 == width,
{
    proof {
        lemma_column_start_ordered(worker as int, worker + 1, width as int, workers as int);
        lemma_column_start_ordered(0, worker as int, width as int, workers as int);
        lemma_column_start_ordered(worker + 1, workers as int, width as int, workers as int);
        assert(0 <= worker * width <= (worker + 1) * width <= 0xffff_ffff * 0xffff_ffff)
            by (nonlinear_arith)
            requires
                0 <= worker < 0xffff_ffff,
                0 <= width <= 0xffff_ffff,
        ;
    }
    let first: u64 = (worker as u64) * (width as u64) / (workers as u64);
    let next: u64 = (worker as u64 + 1) * (width as u64) / (workers as u64);
    (first as u32, next as u32)
}

/// The height that a picture is given: the one asked for, but at least one
/// row.
pub fn floor_height(height: u32) -> (h: u32)
    ensures
        h == if height < 1 { 1u32 } else { height },
{
    if height < 1 {
        1
    } else {
        height
    }
}

/// The tile, set down with its first column at `start`, lies on the
/// picture and is as high as the picture.
pub open spec fn tile_fits(img: Canvas, tile: Canvas, start: int) -> bool {
    &&& canvas_size(tile).1 == canvas_size(img).1
    &&& start + canvas_size(tile).0 <= canvas_size(img).0
}

/// What the picture shows at `(x, y)` once the tile has been set down with
/// its first column at `start`: the tile's pixel in the tile's columns, and
/// what was there before in the others.
pub open spec fn pixel_after_copy(before: Canvas, tile: Canvas, start: int, x: int, y: int) -> (
    u8,
    u8,
    u8,
) {
    if start <= x < start + canvas_size(tile).0 {
        canvas_pixels(tile)[(x - start, y)]
    } else {
        canvas_pixels(before)[(x, y)]
    }
}

/// Copies a worker's tile into the picture, with the tile's first column at
/// column `start`. Where the tile does not fit, nothing is copied and the
/// result is `false`.
pub fn copy_columns(img: &mut Canvas, tile: &Canvas, start: u32) -> (done: bool)
    ensures
        done == tile_fits(*old(img), *tile, start as int),
        canvas_size(*final(img)) == canvas_size(*old(img)),
        done ==> forall|x: int, y: int|
            in_canvas(*old(img), x, y) ==> #[trigger] canvas_pixels(*final(img))[(x, y)]
                == pixel_after_copy(*old(img), *tile, start as int, x, y),
        !done ==> canvas_pixels(*final(img)) == canvas_pixels(*old(img)),
{
    let size = canvas_dimensions(img);
    let tile_size = canvas_dimensions(tile);
    if tile_size.1 != size.1 || start > size.0 || tile_size.0 > size.0 - start {
        return false;
    }
    let ghost before = *img;
    let mut x: u32 = 0;
    while x < tile_size.0
        invariant
            x <= tile_size.0,
            canvas_size(*tile) == (tile_size.0 as int, tile_size.1 as int),
            canvas_size(before) == (size.0 as int, size.1 as int),
            canvas_size(*img) == canvas_size(before),
            tile_fits(before, *tile, start as int),
            forall|cx: int, cy: int|
                in_canvas(before, cx, cy) ==> #[trigger] canvas_pixels(*img)[(cx, cy)] == (if start
                    <= cx < start + x {
                    canvas_pixels(*tile)[(cx - start, cy)]
                } else {
                    canvas_pixels(before)[(cx, cy)]
                }),
        decreases tile_size.0 - x,
    {
        let mut y: u32 = 0;
        while y < size.1
            invariant
                y <= size.1,
                x < tile_size.0,
                canvas_size(*tile) == (tile_size.0 as int, tile_size.1 as int),
                canvas_size(before) == (size.0 as int, size.1 as int),
                canvas_size(*img) == canvas_size(before),
                tile_fits(before, *tile, start as int),
                forall|cx: int, cy: int|
                    in_canvas(before, cx, cy) ==> #[trigger] canvas_pixels(*img)[(cx, cy)] == (if start
                        <= cx < start + x || (cx == start + x && cy < y) {
                        canvas_pixels(*tile)[(cx - start, cy)]
                    } else {
                        canvas_pixels(before)[(cx, cy)]
                    }),
            decreases size.1 - y,
        {
            let p = canvas_get(tile, x, y);
            canvas_put(img, start + x, y, p);
            y = y + 1;
        }
        x = x + 1;
    }
    true
}

/// Tile `worker` is as wide as that worker's share of the columns and as
/// high as the picture.
pub open spec fn tile_sized(tile: Canvas, worker: int, width: int, height: int, workers: int) -> bool {
    canvas_size(tile) == (
        column_start(worker + 1, width, workers) - column_start(worker, width, workers),
        height,
    )
}

/// The picture shows tile `worker` in that worker's columns.
pub open spec fn tile_placed(img: Canvas, tile: Canvas, worker: int, width: int, height: int, workers: int) -> bool {
    forall|x: int, y: int|
        column_start(worker, width, workers) <= x < column_start(worker + 1, width, workers) && 0
            <= y < height ==> #[trigger] canvas_pixels(img)[(x, y)] == canvas_pixels(tile)[(
            x - column_start(worker, width, workers),
            y,
        )]
}

/// The tiles are one for each worker's share of a picture of this size.
pub open spec fn tiles_match(tiles: Seq<Canvas>, width: int, height: int) -> bool {
    &&& 0 < tiles.len() <= u32::MAX
    &&& Canvas::fits(width, height)
    &&& forall|i: int|
        0 <= i < tiles.len() ==> tile_sized(#[trigger] tiles[i], i, width, height, tiles.len() as int)
}

/// Puts the workers' tiles together: tile `i` goes to the columns of
/// worker `i`. The result is `None` where the tiles are not one for each
/// share of a picture of this size, or the picture cannot be held.
pub fn assemble(width: u32, height: u32, tiles: &Vec<Canvas>) -> (picture: Option<Canvas>)
    ensures
        picture.is_some() <==> tiles_match(tiles@, width as int, height as int),
        picture matches Some(img) ==> canvas_size(img) == (width as int, height as int)
            && forall|i: int|
            0 <= i < tiles.len() ==> tile_placed(
                img,
                #[trigger] tiles[i],
                i,
                width as int,
                height as int,
                tiles.len() as int,
            ),
{
    if tiles.len() == 0 || tiles.len() > 0xffff_ffff {
        return None;
    }
    let workers: u32 = tiles.len() as u32;
    let mut img = match Canvas::new(width, height) {
        Some(img) => img,
        None => { return None; },
    };
    let mut i: u32 = 0;
    while i < workers
        invariant
            i <= workers,
            workers == tiles.len(),
            0 < workers,
            Canvas::fits(width as int, height as int),
            canvas_size(img) == (width as int, height as int),
            forall|j: int|
                0 <= j < i ==> tile_sized(#[trigger] tiles[j], j, width as int, height as int, workers as int),
            forall|j: int|
                0 <= j < i ==> tile_placed(
                    img,
                    #[trigger] tiles[j],
                    j,
                    width as int,
                    height as int,
                    workers as int,
                ),
        decreases workers - i,
    {
        let range = column_range(i, width, workers);
        let tile = &tiles[i as usize];
        let tile_size = canvas_dimensions(tile);
        if tile_size.0 != range.1 - range.0 || tile_size.1 != height {
            return None;
        }
        let ghost before = img;
        let done = copy_columns(&mut img, tile, range.0);
        assert(done);
        proof {
            assert forall|j: int| 0 <= j < i + 1 implies tile_placed(
                img,
                #[trigger] tiles[j],
                j,
                width as int,
                height as int,
                workers as int,
            ) by {
                if j < i {
                    lemma_column_start_ordered(j + 1, i as int, width as int, workers as int);
                    lemma_column_start_ordered(0, j, width as int, workers as int);
                    assert(tile_placed(before, tiles[j], j, width as int, height as int, workers as int));
                    assert forall|x: int, y: int|
                        column_start(j, width as int, workers as int) <= x < column_start(
                            j + 1,
                            width as int,
                            workers as int,
                        ) && 0 <= y < height implies #[trigger] canvas_pixels(img)[(x, y)]
                        == canvas_pixels(tiles[j])[(x - column_start(j, width as int, workers as int), y)] by {
                        assert(in_canvas(before, x, y));
                        assert(canvas_pixels(before)[(x, y)] == canvas_pixels(tiles[j])[(
                            x - column_start(j, width as int, workers as int),
                            y,
                        )]);
                    }
                } else {
                    assert forall|x: int, y: int|
                        column_start(j, width as int, workers as int) <= x < column_start(
                            j + 1,
                            width as int,
                            workers as int,
                        ) && 0 <= y < height implies #[trigger] canvas_pixels(img)[(x, y)]
                        == canvas_pixels(tiles[j])[(x - column_start(j, width as int, workers as int), y)] by {
                        assert(in_canvas(before, x, y));
                    }
                }
            }
        }
        i = i + 1;
    }
    Some(img)
}

/// Any two components can be added, and the sum is the one that the
/// component type specifies.
pub open spec fn can_add<T: Add<Output = T>>() -> bool {
    T::obeys_add_spec() && forall|a: T, b: T| #[trigger] a.add_req(b)
}

/// The sum of the first `n` samples, each added to the sum of those before
/// it, beginning with `zero`.
pub open spec fn sum_of<T: Copy + Add<Output = T>>(draws: Seq<Vec3<T>>, n: int, zero: Vec3<T>) -> Vec3<T>
    decreases n,
{
    if n <= 0 {
        zero
    } else {
        draws[n - 1].add_spec(sum_of(draws, n - 1, zero))
    }
}

/// `sum` is the sum of `samples` samples that `draw` gave.
pub open spec fn is_sum_of_draws<T: Copy + Add<Output = T>, F: Fn() -> Vec3<T>>(
    draw: F,
    samples: int,
    zero: Vec3<T>,
    sum: Vec3<T>,
) -> bool {
    exists|draws: Seq<Vec3<T>>|
        draws.len() == samples && (forall|i: int|
            0 <= i < samples ==> draw.ensures((), #[trigger] draws[i])) && sum == #[trigger] sum_of(
            draws,
            samples,
            zero,
        )
}

/// The light of one pixel before it is averaged: asks `draw` for
/// `samples` samples and adds them up, beginning with `zero`.
pub fn accumulate<T: Copy + Add<Output = T>, F: Fn() -> Vec3<T>>(samples: u32, zero: Vec3<T>, draw: &F) -> (sum:
    Vec3<T>)
    requires
        can_add::<T>(),
        draw.requires(()),
    ensures
        is_sum_of_draws(*draw, samples as int, zero, sum),
        samples == 0 ==> sum == zero,
{
    let mut sum = zero;
    let ghost mut draws: Seq<Vec3<T>> = Seq::empty();
    let mut i: u32 = 0;
    while i < samples
        invariant
            i <= samples,
            can_add::<T>(),
            draw.requires(()),
            draws.len() == i,
            forall|k: int| 0 <= k < i ==> draw.ensures((), #[trigger] draws[k]),
            sum == sum_of(draws, i as int, zero),
        decreases samples - i,
    {
        let sample = draw();
        let ghost before = draws;
        proof {
            draws = draws.push(sample);
            lemma_sum_of_prefix(before, draws, i as int, zero);
        }
        sum = sample + sum;
        i = i + 1;
    }
    sum
}

proof fn lemma_sum_of_prefix<T: Copy + Add<Output = T>>(a: Seq<Vec3<T>>, b: Seq<Vec3<T>>, n: int, zero: Vec3<T>)
    requires
        n <= a.len() <= b.len(),
        forall|i: int| 0 <= i < n ==> a[i] == b[i],
    ensures
        sum_of(a, n, zero) == sum_of(b, n, zero),
    decreases n,
{
    if n > 0 {
        lemma_sum_of_prefix(a, b, n - 1, zero);
    }
}

/// The place of a sample across the picture, from zero to one: the
/// number of the pixel, moved by a part of a pixel, over the number of the
/// last pixel.
pub open spec fn jitter<T: Add<Output = T> + Div<Output = T>>(place: T, shift: T, last: T) -> T {
    place.add_spec(shift).div_spec(last)
}

/// `light` is a light that one sample of the pixel `(x, y)` may carry: the
/// light along the camera's ray through the pixel's place, moved within
/// the pixel by two draws of `coin`, for a point of the lens that `lens`
/// gave. `of_count` gives the numbers of the pixels in the component
/// type.
pub open spec fn sample_spec<T, N, L, G, S, P, C>(
    camera: Camera<T>,
    world: HittableList<T>,
    x: u32,
    y: u32,
    image_width: u32,
    image_height: u32,
    depth: int,
    setting: Setting<T>,
    units: Units<T>,
    of_count: N,
    lens: L,
    sample: G,
    sqrt: S,
    powi: P,
    coin: C,
    light: Vec3<T>,
) -> bool where
    T: Copy + Add<Output = T> + Sub<Output = T> + Mul<Output = T> + Div<Output = T> + Neg<
        Output = T,
    > + PartialOrd,
    N: Fn(u32) -> T,
    L: Fn() -> Vec3<T>,
    G: Fn() -> Vec3<T>,
    S: Fn(T) -> T,
    P: Fn(T, i32) -> T,
    C: Fn() -> T,
 {
    exists|px: T, ru: T, w: T, py: T, rv: T, h: T, l: Vec3<T>|
        {
            &&& #[trigger] of_count.ensures((x,), px)
            &&& #[trigger] coin.ensures((), ru)
            &&& #[trigger] of_count.ensures(((image_width - 1) as u32,), w)
            &&& #[trigger] of_count.ensures((y,), py)
            &&& #[trigger] coin.ensures((), rv)
            &&& #[trigger] of_count.ensures(((image_height - 1) as u32,), h)
            &&& #[trigger] lens.ensures((), l)
            &&& scene_light(
                world,
                camera.get_ray_spec(jitter(px, ru, w), jitter(py, rv, h), l),
                depth,
                setting,
                units,
                sample,
                sqrt,
                powi,
                coin,
                light,
            )
        }
}

/// The light of one sample of the pixel `(x, y)` of a picture that is
/// `image_width` by `image_height` pixels, both at least one: the camera's
/// ray through a place drawn within the pixel is followed through the
/// scene for at most `depth + 1` bounces.
pub fn sample_light<T, N, L, G, S, P, C>(
    camera: &Camera<T>,
    world: &HittableList<T>,
    x: u32,
    y: u32,
    image_width: u32,
    image_height: u32,
    depth: i32,
    setting: &Setting<T>,
    units: &Units<T>,
    of_count: &N,
    lens: &L,
    sample: &G,
    sqrt: &S,
    powi: &P,
    coin: &C,
) -> (light: Vec3<T>) where
    T: Copy + Add<Output = T> + Sub<Output = T> + Mul<Output = T> + Div<Output = T> + Neg<
        Output = T,
    > + PartialOrd,
    N: Fn(u32) -> T,
    L: Fn() -> Vec3<T>,
    G: Fn() -> Vec3<T>,
    S: Fn(T) -> T,
    P: Fn(T, i32) -> T,
    C: Fn() -> T,

    requires
        image_width >= 1,
        image_height >= 1,
        is_total::<T>(),
        lens.requires(()),
        sample.requires(()),
        coin.requires(()),
        forall|n: u32| #[trigger] of_count.requires((n,)),
        forall|v: T| #[trigger] sqrt.requires((v,)),
        forall|v: T, n: i32| #[trigger] powi.requires((v, n)),
    ensures
        sample_spec(
            *camera,
            *world,
            x,
            y,
            image_width,
            image_height,
            depth as int,
            *setting,
            *units,
            *of_count,
            *lens,
            *sample,
            *sqrt,
            *powi,
            *coin,
            light,
        ),
{
    let ru = coin();
    let rv = coin();
    let px = of_count(x);
    let w = of_count(image_width - 1);
    let py = of_count(y);
    let h = of_count(image_height - 1);
    let u = (px + ru) / w;
    let v = (py + rv) / h;
    let l = lens();
    let ray = camera.get_ray(u, v, l);
    let light = ray_color_vec3_float(&ray, world, depth, setting, units, sample, sqrt, powi, coin);
    assert(of_count.ensures((x,), px) && coin.ensures((), ru) && of_count.ensures(
        ((image_width - 1) as u32,),
        w,
    ) && of_count.ensures((y,), py) && coin.ensures((), rv) && of_count.ensures(
        ((image_height - 1) as u32,),
        h,
    ) && lens.ensures((), l));
    light
}

/// `color` is a colour that `pixel` may give: for a sum of `samples`
/// samples that `draw` gave and for the number `count` that `of_count`
/// gave for `samples`, each channel is the tone of that channel of the
/// sum.
pub open spec fn pixel_spec<T, F, N, S, B>(
    samples: u32,
    zero: Vec3<T>,
    low: T,
    high: T,
    scale: T,
    draw: F,
    of_count: N,
    sqrt: S,
    to_byte: B,
    color: Color,
) -> bool where
    T: Copy + Add<Output = T> + Mul<Output = T> + Div<Output = T> + PartialOrd,
    F: Fn() -> Vec3<T>,
    N: Fn(u32) -> T,
    S: Fn(T) -> T,
    B: Fn(T) -> u8,
 {
    exists|sum: Vec3<T>, count: T|
        {
            &&& #[trigger] is_sum_of_draws(draw, samples as int, zero, sum)
            &&& #[trigger] of_count.ensures((samples,), count)
            &&& tone_spec(sum.x, count, low, high, scale, sqrt, to_byte, color.value.x)
            &&& tone_spec(sum.y, count, low, high, scale, sqrt, to_byte, color.value.y)
            &&& tone_spec(sum.z, count, low, high, scale, sqrt, to_byte, color.value.z)
        }
}

/// The display colour of one pixel: `samples` samples of light are drawn
/// and added up, beginning with `zero`, and the sum is averaged,
/// gamma-corrected, held between `low` and `high` and scaled by `scale`.
/// `of_count` gives the number of samples in the component type.
pub fn pixel<T, F, N, S, B>(
    samples: u32,
    zero: Vec3<T>,
    low: T,
    high: T,
    scale: T,
    draw: &F,
    of_count: &N,
    sqrt: &S,
    to_byte: &B,
) -> (color: Color) where
    T: Copy + Add<Output = T> + Sub<Output = T> + Mul<Output = T> + Div<Output = T> + Neg<
        Output = T,
    > + PartialOrd,
    F: Fn() -> Vec3<T>,
    N: Fn(u32) -> T,
    S: Fn(T) -> T,
    B: Fn(T) -> u8,

    requires
        is_total::<T>(),
        draw.requires(()),
        of_count.requires((samples,)),
        forall|x: T| #[trigger] sqrt.requires((x,)),
        forall|x: T| #[trigger] to_byte.requires((x,)),
    ensures
        pixel_spec(samples, zero, low, high, scale, *draw, *of_count, *sqrt, *to_byte, color),
{
    let sum = accumulate(samples, zero, draw);
    let count = of_count(samples);
    let color = Color::from_vec3_float(sum, count, low, high, scale, sqrt, to_byte);
    assert(is_sum_of_draws(*draw, samples as int, zero, sum));
    assert(of_count.ensures((samples,), count));
    color
}

/// The numbers that turn summed light into a display colour: a channel
/// is held between `low` and `high` and scaled by `scale`.
#[derive(Debug, Clone, Copy)]
pub struct Tone<T> {
    pub low: T,
    pub high: T,
    pub scale: T,
}

/// `color` is a colour that the pixel `(x, y)` of a picture of the scene
/// may have: `samples` samples of light through the pixel, each as
/// `sample_light` gives it, are added up beginning with black, and each
/// channel is the tone of that channel of the sum.
pub open spec fn shade_spec<T, N, L, G, S, P, C, B>(
    camera: Camera<T>,
    world: HittableList<T>,
    x: u32,
    y: u32,
    image_width: u32,
    image_height: u32,
    samples: u32,
    depth: int,
    setting: Setting<T>,
    units: Units<T>,
    tone: Tone<T>,
    of_count: N,
    lens: L,
    sample: G,
    sqrt: S,
    powi: P,
    coin: C,
    to_byte: B,
    color: Color,
) -> bool where
    T: Copy + Add<Output = T> + Sub<Output = T> + Mul<Output = T> + Div<Output = T> + Neg<
        Output = T,
    > + PartialOrd,
    N: Fn(u32) -> T,
    L: Fn() -> Vec3<T>,
    G: Fn() -> Vec3<T>,
    S: Fn(T) -> T,
    P: Fn(T, i32) -> T,
    C: Fn() -> T,
    B: Fn(T) -> u8,
 {
    exists|draws: Seq<Vec3<T>>, count: T|
        {
            &&& draws.len() == samples
            &&& forall|i: int|
                0 <= i < samples ==> sample_spec(
                    camera,
                    world,
                    x,
                    y,
                    image_width,
                    image_height,
                    depth,
                    setting,
                    units,
                    of_count,
                    lens,
                    sample,
                    sqrt,
                    powi,
                    coin,
                    #[trigger] draws[i],
                )
            &&& #[trigger] of_count.ensures((samples,), count)
            &&& tone_spec(
                (#[trigger] sum_of(draws, samples as int, setting.black)).x,
                count,
                tone.low,
                tone.high,
                tone.scale,
                sqrt,
                to_byte,
                color.value.x,
            )
            &&& tone_spec(
                sum_of(draws, samples as int, setting.black).y,
                count,
                tone.low,
                tone.high,
                tone.scale,
                sqrt,
                to_byte,
                color.value.y,
            )
            &&& tone_spec(
                sum_of(draws, samples as int, setting.black).z,
                count,
                tone.low,
                tone.high,
                tone.scale,
                sqrt,
                to_byte,
                color.value.z,
            )
        }
}

/// The display colour of the pixel `(x, y)` of a picture of the scene:
/// the tone of the sum of `samples` samples of light through the pixel.
pub fn shade<T, N, L, G, S, P, C, B>(
    camera: &Camera<T>,
    world: &HittableList<T>,
    x: u32,
    y: u32,
    image_width: u32,
    image_height: u32,
    samples: u32,
    depth: i32,
    setting: &Setting<T>,
    units: &Units<T>,
    tone: &Tone<T>,
    of_count: &N,
    lens: &L,
    sample: &G,
    sqrt: &S,
    powi: &P,
    coin: &C,
    to_byte: &B,
) -> (color: Color) where
    T: Copy + Add<Output = T> + Sub<Output = T> + Mul<Output = T> + Div<Output = T> + Neg<
        Output = T,
    > + PartialOrd,
    N: Fn(u32) -> T,
    L: Fn() -> Vec3<T>,
    G: Fn() -> Vec3<T>,
    S: Fn(T) -> T,
    P: Fn(T, i32) -> T,
    C: Fn() -> T,
    B: Fn(T) -> u8,

    requires
        image_width >= 1,
        image_height >= 1,
        is_total::<T>(),
        lens.requires(()),
        sample.requires(()),
        coin.requires(()),
        forall|n: u32| #[trigger] of_count.requires((n,)),
        forall|v: T| #[trigger] sqrt.requires((v,)),
        forall|v: T, n: i32| #[trigger] powi.requires((v, n)),
        forall|v: T| #[trigger] to_byte.requires((v,)),
    ensures
        shade_spec(
            *camera,
            *world,
            x,
            y,
            image_width,
            image_height,
            samples,
            depth as int,
            *setting,
            *units,
            *tone,
            *of_count,
            *lens,
            *sample,
            *sqrt,
            *powi,
            *coin,
            *to_byte,
            color,
        ),
{
    let draw = || -> (light: Vec3<T>)
        ensures
            sample_spec(
                *camera,
                *world,
                x,
                y,
                image_width,
                image_height,
                depth as int,
                *setting,
                *units,
                *of_count,
                *lens,
                *sample,
                *sqrt,
                *powi,
                *coin,
                light,
            ),
        {
            sample_light(
                camera,
                world,
                x,
                y,
                image_width,
                image_height,
                depth,
                setting,
                units,
                of_count,
                lens,
                sample,
                sqrt,
                powi,
                coin,
            )
        };
    let color = pixel(
        samples,
        setting.black,
        tone.low,
        tone.high,
        tone.scale,
        &draw,
        of_count,
        sqrt,
        to_byte,
    );
    proof {
        let (sum, count) = choose|sum: Vec3<T>, count: T|
            {
                &&& #[trigger] is_sum_of_draws(draw, samples as int, setting.black, sum)
                &&& #[trigger] of_count.ensures((samples,), count)
                &&& tone_spec(sum.x, count, tone.low, tone.high, tone.scale, *sqrt, *to_byte, color.value.x)
                &&& tone_spec(sum.y, count, tone.low, tone.high, tone.scale, *sqrt, *to_byte, color.value.y)
                &&& tone_spec(sum.z, count, tone.low, tone.high, tone.scale, *sqrt, *to_byte, color.value.z)
            };
        let draws = choose|draws: Seq<Vec3<T>>|
            draws.len() == samples && (forall|i: int|
                0 <= i < samples ==> draw.ensures((), #[trigger] draws[i])) && sum == #[trigger] sum_of(
                draws,
                samples as int,
                setting.black,
            );
        assert(of_count.ensures((samples,), count));
        assert(sum == sum_of(draws, samples as int, setting.black));
    }
    color
}

/// Every pixel of the canvas is a colour that `shade` gives for the
/// pixel's place in the picture, where the canvas is the tile whose first
/// column is column `start` of the picture.
pub open spec fn shows_shades<F: Fn(u32, u32) -> Color>(
    tile: Canvas,
    shade: F,
    start: int,
    width: int,
    height: int,
) -> bool {
    &&& canvas_size(tile) == (width, height)
    &&& forall|x: int, y: int|
        0 <= x < width && 0 <= y < height ==> shade.ensures(
            ((start + x) as u32, y as u32),
            color_of(#[trigger] canvas_pixels(tile)[(x, y)]),
        )
}

/// `shade` can be asked for every pixel of the columns from `start` up to
/// `end`.
pub open spec fn can_shade<F: Fn(u32, u32) -> Color>(shade: F, start: int, end: int, height: int) -> bool {
    forall|x: u32, y: u32| start <= x < end && y < height ==> #[trigger] shade.requires((x, y))
}

/// One worker's share of a render: asks `shade` once for every pixel of
/// the columns from `start` up to `end`, column by column and from the top
/// down, and puts the colours on a tile.
pub fn render_tile<F: Fn(u32, u32) -> Color>(start: u32, end: u32, height: u32, shade: &F) -> (tile:
    Canvas)
    requires
        start <= end,
        Canvas::fits(end - start, height as int),
        can_shade(*shade, start as int, end as int, height as int),
    ensures
        shows_shades(tile, *shade, start as int, end - start, height as int),
{
    let width: u32 = end - start;
    let mut tile = canvas_new(width, height);
    let mut x: u32 = 0;
    while x < width
        invariant
            x <= width,
            width == end - start,
            can_shade(*shade, start as int, end as int, height as int),
            canvas_size(tile) == (width as int, height as int),
            forall|cx: int, cy: int|
                0 <= cx < x && 0 <= cy < height ==> shade.ensures(
                    ((start + cx) as u32, cy as u32),
                    color_of(#[trigger] canvas_pixels(tile)[(cx, cy)]),
                ),
        decreases width - x,
    {
        let mut y: u32 = 0;
        while y < height
            invariant
                y <= height,
                x < width,
                width == end - start,
                can_shade(*shade, start as int, end as int, height as int),
                canvas_size(tile) == (width as int, height as int),
                forall|cx: int, cy: int|
                    0 <= cx < x && 0 <= cy < height ==> shade.ensures(
                        ((start + cx) as u32, cy as u32),
                        color_of(#[trigger] canvas_pixels(tile)[(cx, cy)]),
                    ),
                forall|cy: int|
                    0 <= cy < y ==> shade.ensures(
                        ((start + x) as u32, cy as u32),
                        color_of(#[trigger] canvas_pixels(tile)[(x as int, cy)]),
                    ),
            decreases height - y,
        {
            let c = shade(start + x, y);
            canvas_put(&mut tile, x, y, (c.r(), c.g(), c.b()));
            assert(color_of((c.value.x, c.value.y, c.value.z)) == c);
            y = y + 1;
        }
        x = x + 1;
    }
    tile
}

/// Every pixel of the picture is a colour that `shade` gives for its
/// place.
pub open spec fn picture_of<F: Fn(u32, u32) -> Color>(img: Canvas, shade: F, width: int, height: int) -> bool {
    &&& canvas_size(img) == (width, height)
    &&& forall|x: int, y: int|
        0 <= x < width && 0 <= y < height ==> shade.ensures(
            (x as u32, y as u32),
            color_of(#[trigger] canvas_pixels(img)[(x, y)]),
        )
}

/// Renders a picture with `num_threads` workers' shares, one after the
/// other: each share is rendered on a tile of its own, and the tiles are
/// put together. Whatever the number of shares, every pixel of the picture
/// is what `shade` gives for its place. The result is `None` where there
/// is no worker or the picture cannot be held.
pub fn render_with<F: Fn(u32, u32) -> Color>(
    image_width: u32,
    image_height: u32,
    num_threads: u32,
    shade: &F,
) -> (picture: Option<Canvas>)
    requires
        can_shade(*shade, 0, image_width as int, image_height as int),
    ensures
        picture.is_some() <==> num_threads > 0 && Canvas::fits(
            image_width as int,
            image_height as int,
        ),
        picture matches Some(img) ==> picture_of(img, *shade, image_width as int, image_height as int),
{
    if num_threads == 0 || !Canvas::can_hold(image_width, image_height) {
        return None;
    }
    let mut tiles: Vec<Canvas> = Vec::new();
    let mut i: u32 = 0;
    while i < num_threads
        invariant
            i <= num_threads,
            tiles.len() == i,
            Canvas::fits(image_width as int, image_height as int),
            can_shade(*shade, 0, image_width as int, image_height as int),
            forall|j: int|
                0 <= j < i ==> tile_sized(
                    #[trigger] tiles[j],
                    j,
                    image_width as int,
                    image_height as int,
                    num_threads as int,
                ) && shows_shades(
                    tiles[j],
                    *shade,
                    column_start(j, image_width as int, num_threads as int),
                    column_start(j + 1, image_width as int, num_threads as int) - column_start(
                        j,
                        image_width as int,
                        num_threads as int,
                    ),
                    image_height as int,
                ),
        decreases num_threads - i,
    {
        let range = column_range(i, image_width, num_threads);
        assert(3 * (range.1 - range.0) <= 3 * image_width && 3 * (range.1 - range.0)
            * image_height <= 3 * image_width * image_height) by (nonlinear_arith)
            requires
                0 <= range.1 - range.0 <= image_width,
                0 <= image_height,
        ;
        let tile = render_tile(range.0, range.1, image_height, shade);
        tiles.push(tile);
        i = i + 1;
    }
    let picture = assemble(image_width, image_height, &tiles);
    assert(tiles_match(tiles@, image_width as int, image_height as int));
    let img = picture.unwrap();
    proof {
        let width = image_width as int;
        let workers = num_threads as int;
        assert forall|x: int, y: int| 0 <= x < width && 0 <= y < image_height implies shade.ensures(
            (x as u32, y as u32),
            color_of(#[trigger] canvas_pixels(img)[(x, y)]),
        ) by {
            let owner = lemma_column_has_one_owner(x, width, workers);
            let first = column_start(owner, width, workers);
            assert(tile_placed(img, tiles[owner], owner, width, image_height as int, workers));
            assert(shows_shades(
                tiles[owner],
                *shade,
                first,
                column_start(owner + 1, width, workers) - first,
                image_height as int,
            ));
            assert(canvas_pixels(img)[(x, y)] == canvas_pixels(tiles[owner])[(x - first, y)]);
            assert(first + (x - first) == x);
        }
    }
    Some(img)
}

/// Renders a picture of the scene with `num_threads` workers' shares:
/// every pixel is the tone of the sum of `samples` samples of light
/// through it, whatever the number of shares. The result is `None` where
/// there is no worker or the picture cannot be held.
pub fn render<T, N, L, G, S, P, C, B>(
    camera: &Camera<T>,
    world: &HittableList<T>,
    image_width: u32,
    image_height: u32,
    samples: u32,
    depth: i32,
    num_threads: u32,
    setting: &Setting<T>,
    units: &Units<T>,
    tone: &Tone<T>,
    of_count: &N,
    lens: &L,
    sample: &G,
    sqrt: &S,
    powi: &P,
    coin: &C,
    to_byte: &B,
) -> (picture: Option<Canvas>) where
    T: Copy + Add<Output = T> + Sub<Output = T> + Mul<Output = T> + Div<Output = T> + Neg<
        Output = T,
    > + PartialOrd,
    N: Fn(u32) -> T,
    L: Fn() -> Vec3<T>,
    G: Fn() -> Vec3<T>,
    S: Fn(T) -> T,
    P: Fn(T, i32) -> T,
    C: Fn() -> T,
    B: Fn(T) -> u8,

    requires
        image_width >= 1,
        image_height >= 1,
        is_total::<T>(),
        lens.requires(()),
        sample.requires(()),
        coin.requires(()),
        forall|n: u32| #[trigger] of_count.requires((n,)),
        forall|v: T| #[trigger] sqrt.requires((v,)),
        forall|v: T, n: i32| #[trigger] powi.requires((v, n)),
        forall|v: T| #[trigger] to_byte.requires((v,)),
    ensures
        picture.is_some() <==> num_threads > 0 && Canvas::fits(
            image_width as int,
            image_height as int,
        ),
        picture matches Some(img) ==> canvas_size(img) == (image_width as int, image_height as int)
            && forall|x: int, y: int|
            0 <= x < image_width && 0 <= y < image_height ==> shade_spec(
                *camera,
                *world,
                x as u32,
                y as u32,
                image_width,
                image_height,
                samples,
                depth as int,
                *setting,
                *units,
                *tone,
                *of_count,
                *lens,
                *sample,
                *sqrt,
                *powi,
                *coin,
                *to_byte,
                color_of(#[trigger] canvas_pixels(img)[(x, y)]),
            ),
{
    let shade_at = |x: u32, y: u32| -> (c: Color)
        ensures
            shade_spec(
                *camera,
                *world,
                x,
                y,
                image_width,
                image_height,
                samples,
                depth as int,
                *setting,
                *units,
                *tone,
                *of_count,
                *lens,
                *sample,
                *sqrt,
                *powi,
                *coin,
                *to_byte,
                c,
            ),
        {
            shade(
                camera,
                world,
                x,
                y,
                image_width,
                image_height,
                samples,
                depth,
                setting,
                units,
                tone,
                of_count,
                lens,
                sample,
                sqrt,
                powi,
                coin,
                to_byte,
            )
        };
    render_with(image_width, image_height, num_threads, &shade_at)
}

/// A picture put together from tiles shows the same as its source wherever
/// each tile shows its share of that source, whatever the number of
/// workers: splitting the columns changes nothing in the picture.
pub proof fn lemma_split_keeps_picture(
    source: Map<(int, int), (u8, u8, u8)>,
    img: Canvas,
    tiles: Seq<Canvas>,
    width: int,
    height: int,
)
    requires
        0 <= width,
        0 < tiles.len(),
        forall|i: int|
            0 <= i < tiles.len() ==> tile_placed(img, #[trigger] tiles[i], i, width, height, tiles.len() as int),
        forall|i: int, x: int, y: int|
            0 <= i < tiles.len() && 0 <= x < column_start(i + 1, width, tiles.len() as int)
                - column_start(i, width, tiles.len() as int) && 0 <= y < height
                ==> #[trigger] canvas_pixels(tiles[i])[(x, y)] == source[(
                x + column_start(i, width, tiles.len() as int),
                y,
            )],
    ensures
        forall|x: int, y: int|
            0 <= x < width && 0 <= y < height ==> #[trigger] canvas_pixels(img)[(x, y)] == source[(
                x,
                y,
            )],
{
    let workers = tiles.len() as int;
    assert forall|x: int, y: int| 0 <= x < width && 0 <= y < height implies #[trigger] canvas_pixels(
        img,
    )[(x, y)] == source[(x, y)] by {
        let owner = lemma_column_has_one_owner(x, width, workers);
        assert(tile_placed(img, tiles[owner], owner, width, height, workers));
        let first = column_start(owner, width, workers);
        assert(canvas_pixels(tiles[owner])[(x - first, y)] == source[(x - first + first, y)]);
    }
}

} // verus!
