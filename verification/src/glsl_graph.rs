//! A small graph of typed GLSL expression blocks that emits fragment-shader
//! code.
//!
//! Blocks are shared through `Rc`, so one block may feed several consumers.
//! Nothing here can mutate a block after it is built, so a graph never holds
//! a cycle. Blocks own no GPU state: they only produce text.
use std::fmt::Debug;
use std::rc::Rc;
use vstd::prelude::*;

verus! {

/// How many components a GLSL value has: a scalar, or a vector of two, three
/// or four components.
#[derive(Clone, Copy, Debug, PartialEq, Eq, Structural)]
pub enum Dimension {
    D1,
    D2,
    D3,
    D4,
}

impl Dimension {
    /// The number of components.
    pub open spec fn components(self) -> nat {
        match self {
            Dimension::D1 => 1,
            Dimension::D2 => 2,
            Dimension::D3 => 3,
            Dimension::D4 => 4,
        }
    }

    /// The number of components, from 1 to 4.
    pub fn count(self) -> (n: u8)
        ensures
            n == self.components(),
            1 <= n <= 4,
    {
        match self {
            Dimension::D1 => 1,
            Dimension::D2 => 2,
            Dimension::D3 => 3,
            Dimension::D4 => 4,
        }
    }
}

/// An input whose dimension is not the one its consumer declares.
#[derive(Clone, Copy, Debug, PartialEq, Eq, Structural)]
pub struct DimensionMismatch {
    /// What the consuming block declares for this input.
    pub expected: Dimension,
    /// What the input block produces.
    pub found: Dimension,
}

/// The expression that a block denotes: the mathematical model of a graph.
///
/// Sharing is not visible in the model. A block that feeds two consumers
/// appears once under each of them.
pub enum Expr {
    /// A named shader input.
    Input(Seq<char>),
    /// The signed distance to a sphere of radius 2 around the origin.
    Sphere(Box<Expr>),
    /// The assignment of a colour to the fragment output.
    Output(Box<Expr>),
}

impl Expr {
    /// The blocks that feed this one, in order.
    pub open spec fn inputs(self) -> Seq<Expr> {
        match self {
            Expr::Input(_) => seq![],
            Expr::Sphere(p) => seq![*p],
            Expr::Output(c) => seq![*c],
        }
    }

    /// The dimension that this block declares for each of its inputs.
    pub open spec fn inputs_dims(self) -> Seq<Dimension> {
        match self {
            Expr::Input(_) => seq![],
            Expr::Sphere(_) => seq![Dimension::D3],
            Expr::Output(_) => seq![Dimension::D4],
        }
    }

    /// The dimension of the value that this block produces.
    pub open spec fn output_dims(self) -> Dimension {
        match self {
            Expr::Input(_) => Dimension::D4,
            Expr::Sphere(_) => Dimension::D1,
            Expr::Output(_) => Dimension::D4,
        }
    }

    /// The GLSL text of this block: its template, filled with the text of
    /// its inputs.
    pub open spec fn glsl_code(self) -> Seq<char>
        decreases self,
    {
        match self {
            Expr::Input(name) => name,
            Expr::Sphere(p) => sphere_template(p.glsl_code()),
            Expr::Output(c) => output_template(c.glsl_code()),
        }
    }

    /// The first dimension mismatch met when the graph is walked inputs
    /// first, or `None` where every input has the dimension its consumer
    /// declares.
    pub open spec fn mismatch(self) -> Option<DimensionMismatch>
        decreases self,
    {
        match self {
            Expr::Input(_) => None,
            Expr::Sphere(p) => feed(p.mismatch(), p.output_dims(), Dimension::D3),
            Expr::Output(c) => feed(c.mismatch(), c.output_dims(), Dimension::D4),
        }
    }

    /// Every block below and including this one has as many inputs as it
    /// declares dimensions, and each input produces the declared dimension.
    pub open spec fn well_typed(self) -> bool
        decreases self,
    {
        match self {
            Expr::Input(_) => true,
            Expr::Sphere(p) => p.well_typed() && p.output_dims() == Dimension::D3,
            Expr::Output(c) => c.well_typed() && c.output_dims() == Dimension::D4,
        }
    }
}

/// The text of a sphere block around the text of its input.
pub open spec fn sphere_template(p: Seq<char>) -> Seq<char> {
    "length("@ + p + ") - 2.0"@
}

/// The text of an output block around the text of its input.
pub open spec fn output_template(c: Seq<char>) -> Seq<char> {
    "fragColor = "@ + c + ";"@
}

/// What a consumer reports for one input: the mismatch found inside the
/// input if there is one, else the mismatch between what the input produces
/// and what the consumer expects, if they differ.
pub open spec fn feed(inner: Option<DimensionMismatch>, found: Dimension, expected: Dimension)
    -> Option<DimensionMismatch> {
    if inner is Some {
        inner
    } else if found != expected {
        Some(DimensionMismatch { expected, found })
    } else {
        None
    }
}

/// A node of the expression graph.
pub trait GlslBLock: Debug + View<V = Expr> {
    /// The dimension declared for each input, in the order of `inputs`.
    fn inputs_dims(&self) -> (dims: Vec<Dimension>)
        ensures
            dims@ == self@.inputs_dims(),
    ;

    /// The dimension of the value this block produces.
    fn output_dims(&self) -> (dim: Dimension)
        ensures
            dim == self@.output_dims(),
    ;

    /// Emits the GLSL text of this block and of everything that feeds it.
    fn glsl_code(&self) -> (code: String)
        ensures
            code@ == self@.glsl_code(),
    ;

    /// The blocks that feed this one, in order. The blocks are shared with
    /// the graph, not copied.
    fn inputs(&self) -> (blocks: Vec<Rc<Block>>)
        ensures
            blocks@.len() == self@.inputs().len(),
            forall|i: int| 0 <= i < blocks@.len() ==> (#[trigger] blocks@[i])@ == self@.inputs()[i],
    ;

    /// Walks the graph, inputs first, and reports the first input whose
    /// dimension differs from the one its consumer declares.
    fn check_dimensions(&self) -> (checked: Result<(), DimensionMismatch>)
        ensures
            checked is Ok <==> self@.well_typed(),
            checked matches Err(m) ==> self@.mismatch() == Some(m),
    ;
}

/// Any block of the graph: the closed set of block kinds.
#[derive(Debug)]
pub enum Block {
    In(GlslIn),
    Sphere(BaseSphere),
    Out(GlslOut),
}

/// The signed distance from a point to the sphere of radius 2 around the
/// origin. Takes a three-component point and produces a scalar.
#[derive(Debug)]
pub struct BaseSphere {
    input: Rc<Block>,
}

/// The terminal block: assigns its four-component input to `fragColor`.
#[derive(Debug)]
pub struct GlslOut {
    input: Rc<Block>,
}

/// A named shader input, emitted as the bare identifier.
#[derive(Debug)]
pub struct GlslIn {
    name: String,
}

impl Block {
    /// The expression that this block denotes.
    pub open spec fn expr(self) -> Expr
        decreases self,
    {
        match self {
            Block::In(b) => b.expr(),
            Block::Sphere(b) => b.expr(),
            Block::Out(b) => b.expr(),
        }
    }

    fn emit(&self) -> (code: String)
        ensures
            code@ == self.expr().glsl_code(),
        decreases self,
    {
        match self {
            Block::In(b) => b.name.clone(),
            Block::Sphere(b) => {
                let inner = b.input.emit();
                fill_sphere(inner.as_str())
            },
            Block::Out(b) => {
                let inner = b.input.emit();
                fill_output(inner.as_str())
            },
        }
    }

    fn produced(&self) -> (dim: Dimension)
        ensures
            dim == self.expr().output_dims(),
    {
        match self {
            Block::In(_) => Dimension::D4,
            Block::Sphere(_) => Dimension::D1,
            Block::Out(_) => Dimension::D4,
        }
    }

    fn find_mismatch(&self) -> (found: Option<DimensionMismatch>)
        ensures
            found == self.expr().mismatch(),
        decreases self, 0nat,
    {
        match self {
            Block::In(_) => None,
            Block::Sphere(b) => check_input(&b.input, Dimension::D3),
            Block::Out(b) => check_input(&b.input, Dimension::D4),
        }
    }
}

impl BaseSphere {
    /// A sphere block fed by `input`.
    pub fn new(input: Rc<Block>) -> (block: BaseSphere)
        ensures
            block@ == Expr::Sphere(Box::new(input@)),
    {
        Self { input }
    }

    /// The expression that this block denotes.
    pub closed spec fn expr(self) -> Expr
        decreases self,
    {
        Expr::Sphere(Box::new(self.input.expr()))
    }
}

impl GlslOut {
    /// An output block fed by `input`.
    pub fn new(input: Rc<Block>) -> (block: GlslOut)
        ensures
            block@ == Expr::Output(Box::new(input@)),
    {
        Self { input }
    }

    /// The expression that this block denotes.
    pub closed spec fn expr(self) -> Expr
        decreases self,
    {
        Expr::Output(Box::new(self.input.expr()))
    }
}

impl GlslIn {
    /// An input block that emits `name`.
    pub fn new(name: &str) -> (block: GlslIn)
        ensures
            block@ == Expr::Input(name@),
    {
        Self { name: String::from_str(name) }
    }

    /// The expression that this block denotes.
    pub closed spec fn expr(self) -> Expr {
        Expr::Input(self.name@)
    }
}

impl View for Block {
    type V = Expr;

    open spec fn view(&self) -> Expr {
        self.expr()
    }
}

impl View for BaseSphere {
    type V = Expr;

    open spec fn view(&self) -> Expr {
        self.expr()
    }
}

impl View for GlslOut {
    type V = Expr;

    open spec fn view(&self) -> Expr {
        self.expr()
    }
}

impl View for GlslIn {
    type V = Expr;

    open spec fn view(&self) -> Expr {
        self.expr()
    }
}

impl GlslBLock for BaseSphere {
    fn inputs_dims(&self) -> (dims: Vec<Dimension>) {
        vec![Dimension::D3]
    }

    fn output_dims(&self) -> (dim: Dimension) {
        Dimension::D1
    }

    fn glsl_code(&self) -> (code: String) {
        let inner = self.input.emit();
        fill_sphere(inner.as_str())
    }

    fn inputs(&self) -> (blocks: Vec<Rc<Block>>) {
        vec![share(&self.input)]
    }

    fn check_dimensions(&self) -> (checked: Result<(), DimensionMismatch>) {
        proof {
            lemma_mismatch_iff_ill_typed(self@);
        }
        report(&self.input, Dimension::D3)
    }
}

impl GlslBLock for GlslOut {
    fn inputs_dims(&self) -> (dims: Vec<Dimension>) {
        vec![Dimension::D4]
    }

    fn output_dims(&self) -> (dim: Dimension) {
        Dimension::D4
    }

    fn glsl_code(&self) -> (code: String) {
        let inner = self.input.emit();
        fill_output(inner.as_str())
    }

    fn inputs(&self) -> (blocks: Vec<Rc<Block>>) {
        vec![share(&self.input)]
    }

    fn check_dimensions(&self) -> (checked: Result<(), DimensionMismatch>) {
        proof {
            lemma_mismatch_iff_ill_typed(self@);
        }
        report(&self.input, Dimension::D4)
    }
}

impl GlslBLock for GlslIn {
    fn inputs_dims(&self) -> (dims: Vec<Dimension>) {
        Vec::new()
    }

    fn output_dims(&self) -> (dim: Dimension) {
        Dimension::D4
    }

    fn glsl_code(&self) -> (code: String) {
        self.name.clone()
    }

    fn inputs(&self) -> (blocks: Vec<Rc<Block>>) {
        Vec::new()
    }

    fn check_dimensions(&self) -> (checked: Result<(), DimensionMismatch>) {
        Ok(())
    }
}

impl GlslBLock for Block {
    fn inputs_dims(&self) -> (dims: Vec<Dimension>) {
        match self {
            Block::In(b) => b.inputs_dims(),
            Block::Sphere(b) => b.inputs_dims(),
            Block::Out(b) => b.inputs_dims(),
        }
    }

    fn output_dims(&self) -> (dim: Dimension) {
        self.produced()
    }

    fn glsl_code(&self) -> (code: String) {
        self.emit()
    }

    fn inputs(&self) -> (blocks: Vec<Rc<Block>>) {
        match self {
            Block::In(b) => b.inputs(),
            Block::Sphere(b) => b.inputs(),
            Block::Out(b) => b.inputs(),
        }
    }

    fn check_dimensions(&self) -> (checked: Result<(), DimensionMismatch>) {
        proof {
            lemma_mismatch_iff_ill_typed(self@);
        }
        match self.find_mismatch() {
            Some(m) => Err(m),
            None => Ok(()),
        }
    }
}

/// A graph holds a dimension mismatch exactly if it is not well typed.
pub proof fn lemma_mismatch_iff_ill_typed(e: Expr)
    ensures
        e.mismatch() is None <==> e.well_typed(),
    decreases e,
{
    match e {
        Expr::Input(_) => {},
        Expr::Sphere(p) => lemma_mismatch_iff_ill_typed(*p),
        Expr::Output(c) => lemma_mismatch_iff_ill_typed(*c),
    }
}

/// Emission is deterministic: what a block emits depends on the expression
/// it denotes and on nothing else, so two graphs that denote the same
/// expression emit the same text, however their blocks are shared.
pub proof fn lemma_emission_is_deterministic(a: Block, b: Block)
    requires
        a@ == b@,
    ensures
        a@.glsl_code() == b@.glsl_code(),
{
}

/// Every block has exactly as many inputs as it declares dimensions.
pub proof fn lemma_one_dimension_per_input(e: Expr)
    ensures
        e.inputs().len() == e.inputs_dims().len(),
{
}

/// A graph is well typed exactly if each input of its root produces the
/// dimension that the root declares for it and is itself well typed.
pub proof fn lemma_well_typed_by_inputs(e: Expr)
    ensures
        e.well_typed() <==> forall|i: int|
            0 <= i < e.inputs().len() ==> (#[trigger] e.inputs()[i]).well_typed()
                && e.inputs()[i].output_dims() == e.inputs_dims()[i],
{
    match e {
        Expr::Input(_) => {},
        Expr::Sphere(p) => {
            assert(e.inputs()[0] == *p);
        },
        Expr::Output(c) => {
            assert(e.inputs()[0] == *c);
        },
    }
}

fn fill_sphere(p: &str) -> (code: String)
    ensures
        code@ == sphere_template(p@),
{
    let mut code = String::from_str("length(");
    code.append(p);
    code.append(") - 2.0");
    code
}

fn fill_output(c: &str) -> (code: String)
    ensures
        code@ == output_template(c@),
{
    let mut code = String::from_str("fragColor = ");
    code.append(c);
    code.append(";");
    code
}

fn check_input(input: &Block, expected: Dimension) -> (found: Option<DimensionMismatch>)
    ensures
        found == feed(input.expr().mismatch(), input.expr().output_dims(), expected),
    decreases input, 1nat,
{
    match input.find_mismatch() {
        Some(m) => Some(m),
        None => {
            let produced = input.produced();
            if produced != expected {
                Some(DimensionMismatch { expected, found: produced })
            } else {
                None
            }
        },
    }
}

fn report(input: &Block, expected: Dimension) -> (checked: Result<(), DimensionMismatch>)
    ensures
        checked == match feed(input.expr().mismatch(), input.expr().output_dims(), expected) {
            Some(m) => Err::<(), DimensionMismatch>(m),
            None => Ok(()),
        },
{
    match check_input(input, expected) {
        Some(m) => Err(m),
        None => Ok(()),
    }
}

/// `Rc::clone` of std: the result points to the same block as `block`, so
/// the two are equal as values.
#[verifier::external_body]
fn share(block: &Rc<Block>) -> (shared: Rc<Block>)
    ensures
        *shared == **block,
{
    Rc::clone(block)
}

} // verus!
