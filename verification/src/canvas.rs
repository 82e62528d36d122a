use vstd::prelude::*;
use vstd::string::StringExecFns;
use crate::colour::{
    black, Colour, decimal, lemma_decimal_short, push_decimal, spec_colour_i, spec_normalize_value,
};
use crate::scalar::{deterministic, Scalar};

verus! {

/// The longest line, in characters, that the image text may hold.
pub const MAX_LINE: usize = 70;

/// Why a canvas could not be changed.
#[derive(Clone, Copy, Debug, PartialEq, Eq, Structural)]
pub enum CanvasError {
    /// The position lies outside the grid.
    OutOfRange { x: u32, y: u32 },
    /// A band of rows does not fit at the rows that belong to it.
    BandOutOfRange { thread: u32 },
}

/// A grid of colours, `height` rows of `width` pixels, row by row.
pub struct Canvas<T> {
    pub width: u32,
    pub height: u32,
    pub pixels: Vec<Vec<Colour<T>>>,
}

impl<T> Canvas<T> {
    /// The grid has `height` rows and every row has `width` pixels.
    pub open spec fn wf(&self) -> bool {
        &&& self.pixels.len() == self.height
        &&& forall|y: int| 0 <= y < self.height ==> (#[trigger] self.pixels[y]).len() == self.width
    }

    /// The colour in column `x` of row `y`.
    pub open spec fn pixel(&self, x: int, y: int) -> Colour<T> {
        self.pixels[y][x]
    }

    /// The rows of the grid, top first.
    pub open spec fn rows(&self) -> Seq<Seq<Colour<T>>> {
        Seq::new(self.pixels.len() as nat, |y: int| self.pixels[y]@)
    }
}

fn filled_row<T: Copy>(width: u32, background: Colour<T>) -> (row: Vec<Colour<T>>)
    ensures
        row.len() == width,
        forall|x: int| 0 <= x < width ==> row[x] == background,
{
    let mut row: Vec<Colour<T>> = Vec::new();
    let mut x: u32 = 0;
    while x < width
        invariant
            x <= width,
            row.len() == x,
            forall|i: int| 0 <= i < x ==> row[i] == background,
        decreases width - x,
    {
        row.push(background);
        x += 1;
    }
    row
}

/// A canvas of the given size with every pixel set to `background`.
pub fn canvas_of<T: Copy>(width: u32, height: u32, background: Colour<T>) -> (c: Canvas<T>)
    ensures
        c.wf(),
        c.width == width,
        c.height == height,
        forall|x: int, y: int|
            0 <= x < width && 0 <= y < height ==> #[trigger] c.pixel(x, y) == background,
{
    let mut pixels: Vec<Vec<Colour<T>>> = Vec::new();
    let mut y: u32 = 0;
    while y < height
        invariant
            y <= height,
            pixels.len() == y,
            forall|j: int| 0 <= j < y ==> (#[trigger] pixels[j]).len() == width,
            forall|i: int, j: int| 0 <= i < width && 0 <= j < y ==> pixels[j][i] == background,
        decreases height - y,
    {
        let row = filled_row(width, background);
        pixels.push(row);
        y += 1;
    }
    Canvas { width, height, pixels }
}

/// A black canvas of the given size.
pub fn canvas<T: Scalar>(width: u32, height: u32) -> (c: Canvas<T>)
    ensures
        c.wf(),
        c.width == width,
        c.height == height,
        deterministic::<T>() ==> forall|x: int, y: int|
            0 <= x < width && 0 <= y < height ==> #[trigger] c.pixel(x, y) == spec_colour_i::<T>(
                0,
                0,
                0,
            ),
{
    canvas_of(width, height, black())
}

impl<T: Copy> Canvas<T> {
    /// Sets the pixel in column `x` of row `y`, or reports that the
    /// position is outside the grid and leaves the canvas as it was.
    pub fn write_pixel(&mut self, x: u32, y: u32, colour: Colour<T>) -> (r: Result<(), CanvasError>)
        requires
            old(self).wf(),
        ensures
            final(self).wf(),
            final(self).width == old(self).width,
            final(self).height == old(self).height,
            r is Ok <==> x < old(self).width && y < old(self).height,
            r is Ok ==> final(self).pixel(x as int, y as int) == colour,
            r is Ok ==> forall|i: int, j: int|
                0 <= i < old(self).width && 0 <= j < old(self).height && !(i == x && j == y)
                    ==> #[trigger] final(self).pixel(i, j) == old(self).pixel(i, j),
            r is Err ==> *final(self) == *old(self),
            r is Err ==> r == Err::<(), CanvasError>(CanvasError::OutOfRange { x, y }),
    {
        if x >= self.width || y >= self.height {
            return Err(CanvasError::OutOfRange { x, y });
        }
        self.pixels[y as usize][x as usize] = colour;
        Ok(())
    }
}

/// The numerals of one row: the red, green and blue samples of each pixel,
/// left to right.
pub open spec fn row_tokens<T: Scalar>(row: Seq<Colour<T>>) -> Seq<Seq<char>> {
    Seq::new(3 * row.len(), |k: int| decimal(spec_normalize_value(row[k / 3].channel(k % 3))))
}

/// The lines that a row of numerals is broken into.
///
/// Numerals are taken in order. Each one joins the current line, after one
/// space, as long as the line then holds no more than `MAX_LINE`
/// characters; otherwise it opens a new line. A row without numerals is
/// one empty line.
pub open spec fn wrap_tokens(tokens: Seq<Seq<char>>) -> Seq<Seq<char>>
    decreases tokens.len(),
{
    if tokens.len() == 0 {
        seq![Seq::<char>::empty()]
    } else {
        let lines = wrap_tokens(tokens.drop_last());
        let current = lines.last();
        let token = tokens.last();
        if current.len() == 0 {
            lines.drop_last().push(token)
        } else if current.len() + 1 + token.len() <= MAX_LINE {
            lines.drop_last().push(current + seq![' '] + token)
        } else {
            lines.push(token)
        }
    }
}

/// The text of some lines: each line followed by a line break.
pub open spec fn lines_text(lines: Seq<Seq<char>>) -> Seq<char>
    decreases lines.len(),
{
    if lines.len() == 0 {
        Seq::<char>::empty()
    } else {
        lines_text(lines.drop_last()) + lines.last() + seq!['\n']
    }
}

/// The text of some rows of pixels, each row wrapped on its own.
pub open spec fn rows_text<T: Scalar>(rows: Seq<Seq<Colour<T>>>) -> Seq<char>
    decreases rows.len(),
{
    if rows.len() == 0 {
        Seq::<char>::empty()
    } else {
        rows_text(rows.drop_last()) + lines_text(wrap_tokens(row_tokens(rows.last())))
    }
}

/// The three header lines: the format's name, the size, the largest sample.
pub open spec fn header_text(width: nat, height: nat) -> Seq<char> {
    seq!['P', '3', '\n'] + decimal(width) + seq![' '] + decimal(height) + seq![
        '\n',
        '2',
        '5',
        '5',
        '\n',
    ]
}

/// Wrapping always yields at least one line.
pub proof fn lemma_wrap_nonempty(tokens: Seq<Seq<char>>)
    ensures
        wrap_tokens(tokens).len() >= 1,
    decreases tokens.len(),
{
    if tokens.len() > 0 {
        lemma_wrap_nonempty(tokens.drop_last());
    }
}

/// No line exceeds `MAX_LINE` characters, as long as no single numeral does.
pub proof fn lemma_wrap_fits(tokens: Seq<Seq<char>>, i: int)
    requires
        forall|k: int| 0 <= k < tokens.len() ==> (#[trigger] tokens[k]).len() <= MAX_LINE,
        0 <= i < wrap_tokens(tokens).len(),
    ensures
        wrap_tokens(tokens)[i].len() <= MAX_LINE,
    decreases tokens.len(),
{
    if tokens.len() > 0 {
        let rest = tokens.drop_last();
        lemma_wrap_nonempty(rest);
        let lines = wrap_tokens(rest);
        assert forall|k: int| 0 <= k < rest.len() implies (#[trigger] rest[k]).len()
            <= MAX_LINE by {
            assert(rest[k] == tokens[k]);
        }
        if i < lines.len() - 1 {
            lemma_wrap_fits(rest, i);
        } else if i == lines.len() - 1 {
            lemma_wrap_fits(rest, i);
        }
    }
}

/// The numerals joined by single spaces.
pub open spec fn spaced(tokens: Seq<Seq<char>>) -> Seq<char>
    decreases tokens.len(),
{
    if tokens.len() == 0 {
        Seq::<char>::empty()
    } else if tokens.len() == 1 {
        tokens[0]
    } else {
        spaced(tokens.drop_last()) + seq![' '] + tokens.last()
    }
}

/// Once a numeral is written, the current line is not empty.
pub proof fn lemma_wrap_last_line_nonempty(tokens: Seq<Seq<char>>)
    requires
        tokens.len() > 0,
        forall|k: int| 0 <= k < tokens.len() ==> (#[trigger] tokens[k]).len() > 0,
    ensures
        wrap_tokens(tokens).len() > 0,
        wrap_tokens(tokens).last().len() > 0,
    decreases tokens.len(),
{
    let rest = tokens.drop_last();
    lemma_wrap_nonempty(rest);
    if rest.len() > 0 {
        assert forall|k: int| 0 <= k < rest.len() implies (#[trigger] rest[k]).len() > 0 by {
            assert(rest[k] == tokens[k]);
        }
        lemma_wrap_last_line_nonempty(rest);
    }
}

/// Wrapping keeps every numeral whole and in its place: the lines joined by
/// single spaces are the numerals joined by single spaces. All that
/// wrapping does is to put a line break where a space would stand.
pub proof fn lemma_wrap_keeps_numerals(tokens: Seq<Seq<char>>)
    requires
        forall|k: int| 0 <= k < tokens.len() ==> (#[trigger] tokens[k]).len() > 0,
    ensures
        spaced(wrap_tokens(tokens)) == spaced(tokens),
    decreases tokens.len(),
{
    if tokens.len() == 0 {
        assert(spaced(wrap_tokens(tokens)) =~= spaced(tokens));
    } else {
        let rest = tokens.drop_last();
        let token = tokens.last();
        let lines = wrap_tokens(rest);
        let current = lines.last();
        lemma_wrap_nonempty(rest);
        assert forall|k: int| 0 <= k < rest.len() implies (#[trigger] rest[k]).len() > 0 by {
            assert(rest[k] == tokens[k]);
        }
        lemma_wrap_keeps_numerals(rest);
        if rest.len() == 0 {
            assert(lines =~= seq![Seq::<char>::empty()]);
            let after = lines.drop_last().push(token);
            assert(after =~= seq![token]);
            assert(spaced(after) == token);
            assert(tokens =~= seq![token]);
        } else {
            lemma_wrap_last_line_nonempty(rest);
            if current.len() + 1 + token.len() <= MAX_LINE {
                let after = lines.drop_last().push(current + seq![' '] + token);
                assert(wrap_tokens(tokens) == after);
                assert(after.drop_last() =~= lines.drop_last());
                if lines.len() == 1 {
                    assert(lines =~= seq![current]);
                    assert(spaced(lines) == current);
                    assert(spaced(after) == current + seq![' '] + token);
                } else {
                    assert(spaced(lines) == spaced(lines.drop_last()) + seq![' '] + current);
                    assert(spaced(after) =~= spaced(lines) + seq![' '] + token);
                }
            } else {
                let after = lines.push(token);
                assert(wrap_tokens(tokens) == after);
                assert(after.drop_last() =~= lines);
                assert(spaced(after) == spaced(lines) + seq![' '] + token);
            }
            assert(spaced(tokens) == spaced(rest) + seq![' '] + token);
        }
    }
}

/// The numerals of a row have one to three digits.
pub proof fn lemma_row_tokens_short<T: Scalar>(row: Seq<Colour<T>>, k: int)
    requires
        0 <= k < row_tokens(row).len(),
    ensures
        1 <= row_tokens(row)[k].len() <= 3,
{
    lemma_decimal_short(spec_normalize_value(row[k / 3].channel(k % 3)));
}

/// No line of a row of pixels is longer than `MAX_LINE` characters.
pub proof fn lemma_row_lines_fit<T: Scalar>(row: Seq<Colour<T>>, i: int)
    requires
        0 <= i < wrap_tokens(row_tokens(row)).len(),
    ensures
        wrap_tokens(row_tokens(row))[i].len() <= MAX_LINE,
{
    let tokens = row_tokens(row);
    assert forall|k: int| 0 <= k < tokens.len() implies (#[trigger] tokens[k]).len() <= MAX_LINE by {
        lemma_row_tokens_short(row, k);
    }
    lemma_wrap_fits(tokens, i);
}

/// The text ends with a line break.
pub proof fn lemma_image_ends_with_line_break<T: Scalar>(c: Canvas<T>)
    ensures
        c.spec_to_ppm().len() > 0,
        c.spec_to_ppm().last() == '\n',
{
    let head = header_text(c.width as nat, c.height as nat);
    let body = rows_text(c.rows());
    assert(head.last() == '\n');
    if c.rows().len() > 0 {
        let lines = wrap_tokens(row_tokens(c.rows().last()));
        lemma_wrap_nonempty(row_tokens(c.rows().last()));
        assert(lines.len() > 0);
        assert(lines_text(lines).last() == '\n');
        assert(body.last() == '\n');
    } else {
        assert(body.len() == 0);
        assert(head + body =~= head);
    }
}

/// Text so far, for a row whose numerals `done` have been written after
/// `start`: the finished lines, and the current line still open.
spec fn row_in_progress(text: Seq<char>, start: Seq<char>, done: Seq<Seq<char>>) -> bool {
    let lines = wrap_tokens(done);
    text == start + lines_text(lines.drop_last()) + lines.last()
}

fn emit_token(
    out: &mut String,
    line_len: &mut usize,
    n: u32,
    Ghost(start): Ghost<Seq<char>>,
    Ghost(done): Ghost<Seq<Seq<char>>>,
)
    requires
        n <= 255,
        row_in_progress(old(out)@, start, done),
        *old(line_len) == wrap_tokens(done).last().len(),
        *old(line_len) <= MAX_LINE,
    ensures
        row_in_progress(final(out)@, start, done.push(decimal(n as nat))),
        *final(line_len) == wrap_tokens(done.push(decimal(n as nat))).last().len(),
        *final(line_len) <= MAX_LINE,
{
    let ghost token = decimal(n as nat);
    let ghost lines = wrap_tokens(done);
    let ghost next = done.push(token);
    proof {
        lemma_decimal_short(n as nat);
        lemma_wrap_nonempty(done);
        reveal_with_fuel(decimal, 4);
        reveal_strlit(" ");
        reveal_strlit("\n");
        assert(next.drop_last() =~= done);
        assert(next.last() == token);
    }
    let token_len: usize = if n < 10 {
        1
    } else if n < 100 {
        2
    } else {
        3
    };
    assert(token_len == token.len());
    if *line_len == 0 {
        push_decimal(out, n);
        *line_len = token_len;
        proof {
            let after = lines.drop_last().push(token);
            assert(wrap_tokens(next) == after);
            assert(after.drop_last() =~= lines.drop_last());
            assert(lines.last() =~= Seq::<char>::empty());
            assert(out@ =~= start + lines_text(after.drop_last()) + after.last());
        }
    } else if *line_len + 1 + token_len <= MAX_LINE {
        out.append(" ");
        push_decimal(out, n);
        *line_len = *line_len + 1 + token_len;
        proof {
            let after = lines.drop_last().push(lines.last() + seq![' '] + token);
            assert(wrap_tokens(next) == after);
            assert(after.drop_last() =~= lines.drop_last());
            assert(" "@ =~= seq![' ']);
            assert(out@ =~= start + lines_text(after.drop_last()) + after.last());
        }
    } else {
        out.append("\n");
        push_decimal(out, n);
        *line_len = token_len;
        proof {
            let after = lines.push(token);
            assert(wrap_tokens(next) == after);
            assert(after.drop_last() =~= lines);
            assert("\n"@ =~= seq!['\n']);
            assert(out@ =~= start + lines_text(after.drop_last()) + after.last());
        }
    }
}

/// Appends the wrapped lines of one row of pixels to the text.
fn push_row<T: Scalar>(out: &mut String, row: &Vec<Colour<T>>)
    ensures
        deterministic::<T>() ==> final(out)@ == old(out)@ + lines_text(
            wrap_tokens(row_tokens(row@)),
        ),
{
    let ghost start = out@;
    let ghost tokens = row_tokens(row@);
    let ghost mut done = Seq::<Seq<char>>::empty();
    let mut x: usize = 0;
    let mut line_len: usize = 0;
    proof {
        assert(wrap_tokens(done) =~= seq![Seq::<char>::empty()]);
        assert(wrap_tokens(done).drop_last() =~= Seq::<Seq<char>>::empty());
        assert(out@ =~= start + lines_text(wrap_tokens(done).drop_last()) + wrap_tokens(
            done,
        ).last());
        assert(tokens.take(0) =~= done);
    }
    while x < row.len()
        invariant
            x <= row.len(),
            tokens == row_tokens(row@),
            row_in_progress(out@, start, done),
            line_len == wrap_tokens(done).last().len(),
            line_len <= MAX_LINE,
            deterministic::<T>() ==> done == tokens.take(3 * x),
        decreases row.len() - x,
    {
        let c = row[x];
        let ghost k = 3 * x as int;
        let r = Colour::<T>::normalize_value(c.red);
        let g = Colour::<T>::normalize_value(c.green);
        let b = Colour::<T>::normalize_value(c.blue);
        emit_token(out, &mut line_len, r, Ghost(start), Ghost(done));
        proof {
            if deterministic::<T>() {
                assert(tokens.take(k).push(tokens[k]) =~= tokens.take(k + 1));
            }
            done = done.push(decimal(r as nat));
        }
        emit_token(out, &mut line_len, g, Ghost(start), Ghost(done));
        proof {
            if deterministic::<T>() {
                assert(tokens.take(k + 1).push(tokens[k + 1]) =~= tokens.take(k + 2));
            }
            done = done.push(decimal(g as nat));
        }
        emit_token(out, &mut line_len, b, Ghost(start), Ghost(done));
        proof {
            if deterministic::<T>() {
                assert(tokens.take(k + 2).push(tokens[k + 2]) =~= tokens.take(k + 3));
            }
            done = done.push(decimal(b as nat));
        }
        x += 1;
    }
    out.append("\n");
    proof {
        reveal_strlit("\n");
        assert("\n"@ =~= seq!['\n']);
        lemma_wrap_nonempty(done);
        let lines = wrap_tokens(done);
        assert(lines_text(lines) == lines_text(lines.drop_last()) + lines.last() + seq!['\n']);
        assert(out@ =~= start + lines_text(lines));
        if deterministic::<T>() {
            assert(tokens.take(3 * x as int) =~= tokens);
        }
    }
}

impl<T: Scalar> Canvas<T> {
    /// The image as text: the header, then the rows.
    pub open spec fn spec_to_ppm(&self) -> Seq<char> {
        header_text(self.width as nat, self.height as nat) + rows_text(self.rows())
    }

    /// Encodes the canvas as a plain-text image.
    ///
    /// Each channel is written as its sample between 0 and 255. Each row
    /// of pixels starts a new line and is wrapped so that no line is longer
    /// than `MAX_LINE` characters.
    pub fn to_ppm(&self) -> (ppm: String)
        ensures
            deterministic::<T>() ==> ppm@ == self.spec_to_ppm(),
    {
        proof {
            reveal_strlit("P3\n");
            reveal_strlit(" ");
            reveal_strlit("\n255\n");
        }
        let mut ppm = String::from_str("P3\n");
        push_decimal(&mut ppm, self.width);
        ppm.append(" ");
        push_decimal(&mut ppm, self.height);
        ppm.append("\n255\n");
        assert(ppm@ =~= header_text(self.width as nat, self.height as nat));
        let mut y: usize = 0;
        assert(self.rows().take(0) =~= Seq::<Seq<Colour<T>>>::empty());
        while y < self.pixels.len()
            invariant
                y <= self.pixels.len(),
                deterministic::<T>() ==> ppm@ == header_text(self.width as nat, self.height as nat)
                    + rows_text(self.rows().take(y as int)),
            decreases self.pixels.len() - y,
        {
            push_row(&mut ppm, &self.pixels[y]);
            proof {
                let upto = self.rows().take(y as int + 1);
                assert(upto.drop_last() =~= self.rows().take(y as int));
                assert(upto.last() == self.pixels[y as int]@);
            }
            y += 1;
        }
        assert(self.rows().take(y as int) =~= self.rows());
        ppm
    }
}

} // verus!
