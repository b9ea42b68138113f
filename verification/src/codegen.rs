//! Translation of a compiled program into GLSL source: the program's
//! constants become a `uint` array, and each opcode becomes one line of
//! shader code calling the matching distance function from the GLSL library.

use vstd::prelude::*;
use vstd::pervasive::unreached;
use vstd::string::StringExecFns;

use crate::compiler::{spec_decompile, spec_run, spec_step, init_run_state, RunOut, RunState, Error};
use crate::opcode::Opcode;
use crate::program::Program;

verus! {

/// The decimal digit characters.
pub open spec fn digit_char(d: nat) -> char {
    if d == 0 {
        '0'
    } else if d == 1 {
        '1'
    } else if d == 2 {
        '2'
    } else if d == 3 {
        '3'
    } else if d == 4 {
        '4'
    } else if d == 5 {
        '5'
    } else if d == 6 {
        '6'
    } else if d == 7 {
        '7'
    } else if d == 8 {
        '8'
    } else {
        '9'
    }
}

/// The decimal text of a number, most significant digit first, no sign and
/// no leading zeros (a single zero for zero).
pub open spec fn dec_digits(n: nat) -> Seq<char>
    decreases n,
{
    if n < 10 {
        seq![digit_char(n)]
    } else {
        dec_digits(n / 10) + seq![digit_char(n % 10)]
    }
}

/// Appends one decimal digit to the string.
fn append_digit(s: &mut String, d: u64)
    requires
        d < 10,
    ensures
        final(s)@ == old(s)@ + seq![digit_char(d as nat)],
{
    if d == 0 {
        s.append("0");
        proof {
            reveal_strlit("0");
            assert(old(s)@ + "0"@ =~= old(s)@ + seq![digit_char(d as nat)]);
        }
    } else if d == 1 {
        s.append("1");
        proof {
            reveal_strlit("1");
            assert(old(s)@ + "1"@ =~= old(s)@ + seq![digit_char(d as nat)]);
        }
    } else if d == 2 {
        s.append("2");
        proof {
            reveal_strlit("2");
            assert(old(s)@ + "2"@ =~= old(s)@ + seq![digit_char(d as nat)]);
        }
    } else if d == 3 {
        s.append("3");
        proof {
            reveal_strlit("3");
            assert(old(s)@ + "3"@ =~= old(s)@ + seq![digit_char(d as nat)]);
        }
    } else if d == 4 {
        s.append("4");
        proof {
            reveal_strlit("4");
            assert(old(s)@ + "4"@ =~= old(s)@ + seq![digit_char(d as nat)]);
        }
    } else if d == 5 {
        s.append("5");
        proof {
            reveal_strlit("5");
            assert(old(s)@ + "5"@ =~= old(s)@ + seq![digit_char(d as nat)]);
        }
    } else if d == 6 {
        s.append("6");
        proof {
            reveal_strlit("6");
            assert(old(s)@ + "6"@ =~= old(s)@ + seq![digit_char(d as nat)]);
        }
    } else if d == 7 {
        s.append("7");
        proof {
            reveal_strlit("7");
            assert(old(s)@ + "7"@ =~= old(s)@ + seq![digit_char(d as nat)]);
        }
    } else if d == 8 {
        s.append("8");
        proof {
            reveal_strlit("8");
            assert(old(s)@ + "8"@ =~= old(s)@ + seq![digit_char(d as nat)]);
        }
    } else {
        s.append("9");
        proof {
            reveal_strlit("9");
            assert(old(s)@ + "9"@ =~= old(s)@ + seq![digit_char(d as nat)]);
        }
    }
}

/// Appends the decimal text of `n` to the string.
fn append_u64(s: &mut String, n: u64)
    ensures
        final(s)@ == old(s)@ + dec_digits(n as nat),
    decreases n,
{
    if n < 10 {
        append_digit(s, n);
    } else {
        append_u64(s, n / 10);
        append_digit(s, n % 10);
        proof {
            assert(old(s)@ + dec_digits((n / 10) as nat) + seq![digit_char((n % 10) as nat)]
                =~= old(s)@ + dec_digits(n as nat));
        }
    }
}

/// The decimal text of a number.
pub fn format_u64(n: u64) -> (s: String)
    ensures
        s@ == dec_digits(n as nat),
{
    let mut s = String::new();
    append_u64(&mut s, n);
    proof {
        assert(Seq::<char>::empty() + dec_digits(n as nat) =~= dec_digits(n as nat));
    }
    s
}

/// The shading language a [`CodeGen`] writes.
#[derive(PartialEq, Eq, Structural)]
pub enum Backend {
    GLSL,
}

/// Whether the generated field function returns the distance alone, or an
/// RGB color with the distance in the fourth component.
#[derive(Copy, Clone)]
pub enum OutputType {
    DistanceOnly,
    DistanceWithRgb,
}

/// The text the constant-pool access of [`CodeGenContext::uint32`] expands
/// to: an index into the program's `uint` array, with a component selector
/// when the pool is packed into `uvec4`s.
pub open spec fn uint32_text(function_name: Seq<char>, dynamic_constants: bool, ci: nat) -> Seq<
    char,
> {
    let index = if dynamic_constants {
        ci / 4
    } else {
        ci
    };
    let suffix = if dynamic_constants {
        if ci % 4 == 0 {
            ".x"@
        } else if ci % 4 == 1 {
            ".y"@
        } else if ci % 4 == 2 {
            ".z"@
        } else {
            ".w"@
        }
    } else {
        Seq::<char>::empty()
    };
    function_name + "_constants["@ + function_name + "_constants_offset + "@ + dec_digits(index)
        + "]"@ + suffix
}

/// The text of [`CodeGenContext::float32`]: the raw constant read wrapped
/// in a bit cast.
pub open spec fn float32_text(function_name: Seq<char>, dynamic_constants: bool, ci: nat) -> Seq<
    char,
> {
    "uintBitsToFloat("@ + uint32_text(function_name, dynamic_constants, ci) + ")"@
}

/// The text of [`CodeGenContext::vec3`] (and of a material read): three
/// consecutive float reads in a `vec3` constructor.
pub open spec fn vec3_text(function_name: Seq<char>, dynamic_constants: bool, ci: nat) -> Seq<
    char,
> {
    "vec3("@ + float32_text(function_name, dynamic_constants, ci) + ", "@ + float32_text(
        function_name,
        dynamic_constants,
        ci + 1,
    ) + ", "@ + float32_text(function_name, dynamic_constants, ci + 2) + ")"@
}

/// The text of [`CodeGenContext::vec4`] (and of a quaternion read): four
/// consecutive float reads in a `vec4` constructor.
pub open spec fn vec4_text(function_name: Seq<char>, dynamic_constants: bool, ci: nat) -> Seq<
    char,
> {
    "vec4("@ + float32_text(function_name, dynamic_constants, ci) + ", "@ + float32_text(
        function_name,
        dynamic_constants,
        ci + 1,
    ) + ", "@ + float32_text(function_name, dynamic_constants, ci + 2) + ", "@ + float32_text(
        function_name,
        dynamic_constants,
        ci + 3,
    ) + ")"@
}

/// Scratch state while one program is being written out: fresh-name
/// counters, the cursor into the constant pool, and the stacks of live
/// value and position variable names.
pub struct CodeGenContext<'a> {
    pub function_name: &'a str,
    pub dynamic_constants: bool,
    pub variable_index: usize,
    pub constant_index: usize,
    pub variable_stack: Vec<String>,
    pub position_variable_stack: Vec<String>,
    pub current_position: String,
}

impl<'a> CodeGenContext<'a> {
    /// A fresh context: the position variable is the name the field function
    /// takes its query point in.
    pub fn new(
        initial_position_variable: &str,
        function_name: &'a str,
        dynamic_constants: bool,
    ) -> (r: Self)
        ensures
            r.function_name@ == function_name@,
            r.dynamic_constants == dynamic_constants,
            r.variable_index == 0,
            r.constant_index == 0,
            r.variable_stack@ == Seq::<String>::empty(),
            r.position_variable_stack@.len() == 1,
            r.position_variable_stack@[0]@ == initial_position_variable@,
            r.current_position@ == initial_position_variable@,
    {
        let position = String::from_str(initial_position_variable);
        let mut position_variable_stack: Vec<String> = Vec::new();
        position_variable_stack.push(String::from_str(initial_position_variable));
        Self {
            function_name,
            dynamic_constants,
            variable_index: 0,
            constant_index: 0,
            variable_stack: Vec::new(),
            position_variable_stack,
            current_position: position,
        }
    }

    /// A fresh value variable name, pushed on the value stack.
    pub fn push_variable(&mut self) -> (name: String)
        requires
            old(self).variable_index < usize::MAX,
        ensures
            name@ == "sdf"@ + dec_digits(old(self).variable_index as nat),
            final(self).variable_index == old(self).variable_index + 1,
            final(self).variable_stack@ == old(self).variable_stack@.push(name),
            final(self).constant_index == old(self).constant_index,
            final(self).position_variable_stack@ == old(self).position_variable_stack@,
            final(self).current_position@ == old(self).current_position@,
            final(self).function_name@ == old(self).function_name@,
            final(self).dynamic_constants == old(self).dynamic_constants,
    {
        let mut name = String::from_str("sdf");
        append_u64(&mut name, self.variable_index as u64);
        self.variable_index = self.variable_index + 1;
        let out = name.clone();
        self.variable_stack.push(name);
        out
    }

    /// The text reading the next raw constant, advancing the cursor.
    pub fn uint32(&mut self) -> (r: String)
        requires
            old(self).constant_index < usize::MAX,
        ensures
            r@ == uint32_text(
                old(self).function_name@,
                old(self).dynamic_constants,
                old(self).constant_index as nat,
            ),
            final(self).constant_index == old(self).constant_index + 1,
            final(self).variable_index == old(self).variable_index,
            final(self).variable_stack@ == old(self).variable_stack@,
            final(self).position_variable_stack@ == old(self).position_variable_stack@,
            final(self).current_position@ == old(self).current_position@,
            final(self).function_name@ == old(self).function_name@,
            final(self).dynamic_constants == old(self).dynamic_constants,
    {
        let mut s = String::from_str(self.function_name);
        s.append("_constants[");
        s.append(self.function_name);
        s.append("_constants_offset + ");
        let index: usize = if self.dynamic_constants {
            self.constant_index / 4
        } else {
            self.constant_index
        };
        append_u64(&mut s, index as u64);
        s.append("]");
        if self.dynamic_constants {
            let sel: usize = self.constant_index % 4;
            if sel == 0 {
                s.append(".x");
            } else if sel == 1 {
                s.append(".y");
            } else if sel == 2 {
                s.append(".z");
            } else {
                s.append(".w");
            }
        }
        self.constant_index = self.constant_index + 1;
        proof {
            assert(s@ =~= uint32_text(
                old(self).function_name@,
                old(self).dynamic_constants,
                old(self).constant_index as nat,
            ));
        }
        s
    }

    /// The text reading the next constant as a float.
    pub fn float32(&mut self) -> (r: String)
        requires
            old(self).constant_index < usize::MAX,
        ensures
            r@ == float32_text(
                old(self).function_name@,
                old(self).dynamic_constants,
                old(self).constant_index as nat,
            ),
            final(self).constant_index == old(self).constant_index + 1,
            final(self).variable_index == old(self).variable_index,
            final(self).variable_stack@ == old(self).variable_stack@,
            final(self).position_variable_stack@ == old(self).position_variable_stack@,
            final(self).current_position@ == old(self).current_position@,
            final(self).function_name@ == old(self).function_name@,
            final(self).dynamic_constants == old(self).dynamic_constants,
    {
        let mut s = String::from_str("uintBitsToFloat(");
        let inner = self.uint32();
        s.append(inner.as_str());
        s.append(")");
        s
    }

    /// The text reading the next two constants as a `vec2`.
    pub fn vec2(&mut self) -> (r: String)
        requires
            old(self).constant_index + 2 <= usize::MAX,
        ensures
            r@ == "vec2("@ + float32_text(
                old(self).function_name@,
                old(self).dynamic_constants,
                old(self).constant_index as nat,
            ) + ", "@ + float32_text(
                old(self).function_name@,
                old(self).dynamic_constants,
                (old(self).constant_index + 1) as nat,
            ) + ")"@,
            final(self).constant_index == old(self).constant_index + 2,
            final(self).variable_index == old(self).variable_index,
            final(self).variable_stack@ == old(self).variable_stack@,
            final(self).position_variable_stack@ == old(self).position_variable_stack@,
            final(self).current_position@ == old(self).current_position@,
            final(self).function_name@ == old(self).function_name@,
            final(self).dynamic_constants == old(self).dynamic_constants,
    {
        let mut s = String::from_str("vec2(");
        let a = self.float32();
        s.append(a.as_str());
        s.append(", ");
        let b = self.float32();
        s.append(b.as_str());
        s.append(")");
        proof {
            assert(s@ =~= "vec2("@ + float32_text(
                old(self).function_name@,
                old(self).dynamic_constants,
                old(self).constant_index as nat,
            ) + ", "@ + float32_text(
                old(self).function_name@,
                old(self).dynamic_constants,
                (old(self).constant_index + 1) as nat,
            ) + ")"@);
        }
        s
    }

    /// The text reading the next three constants as a `vec3`.
    pub fn vec3(&mut self) -> (r: String)
        requires
            old(self).constant_index + 3 <= usize::MAX,
        ensures
            r@ == vec3_text(
                old(self).function_name@,
                old(self).dynamic_constants,
                old(self).constant_index as nat,
            ),
            final(self).constant_index == old(self).constant_index + 3,
            final(self).variable_index == old(self).variable_index,
            final(self).variable_stack@ == old(self).variable_stack@,
            final(self).position_variable_stack@ == old(self).position_variable_stack@,
            final(self).current_position@ == old(self).current_position@,
            final(self).function_name@ == old(self).function_name@,
            final(self).dynamic_constants == old(self).dynamic_constants,
    {
        let mut s = String::from_str("vec3(");
        let a = self.float32();
        s.append(a.as_str());
        s.append(", ");
        let b = self.float32();
        s.append(b.as_str());
        s.append(", ");
        let c = self.float32();
        s.append(c.as_str());
        s.append(")");
        proof {
            assert(s@ =~= vec3_text(
                old(self).function_name@,
                old(self).dynamic_constants,
                old(self).constant_index as nat,
            ));
        }
        s
    }

    /// The text reading the next four constants as a `vec4`.
    pub fn vec4(&mut self) -> (r: String)
        requires
            old(self).constant_index + 4 <= usize::MAX,
        ensures
            r@ == vec4_text(
                old(self).function_name@,
                old(self).dynamic_constants,
                old(self).constant_index as nat,
            ),
            final(self).constant_index == old(self).constant_index + 4,
            final(self).variable_index == old(self).variable_index,
            final(self).variable_stack@ == old(self).variable_stack@,
            final(self).position_variable_stack@ == old(self).position_variable_stack@,
            final(self).current_position@ == old(self).current_position@,
            final(self).function_name@ == old(self).function_name@,
            final(self).dynamic_constants == old(self).dynamic_constants,
    {
        let mut s = String::from_str("vec4(");
        let a = self.float32();
        s.append(a.as_str());
        s.append(", ");
        let b = self.float32();
        s.append(b.as_str());
        s.append(", ");
        let c = self.float32();
        s.append(c.as_str());
        s.append(", ");
        let d = self.float32();
        s.append(d.as_str());
        s.append(")");
        proof {
            assert(s@ =~= vec4_text(
                old(self).function_name@,
                old(self).dynamic_constants,
                old(self).constant_index as nat,
            ));
        }
        s
    }

    /// The text reading the next four constants as a quaternion.
    pub fn quat(&mut self) -> (r: String)
        requires
            old(self).constant_index + 4 <= usize::MAX,
        ensures
            r@ == vec4_text(
                old(self).function_name@,
                old(self).dynamic_constants,
                old(self).constant_index as nat,
            ),
            final(self).constant_index == old(self).constant_index + 4,
            final(self).variable_index == old(self).variable_index,
            final(self).variable_stack@ == old(self).variable_stack@,
            final(self).position_variable_stack@ == old(self).position_variable_stack@,
            final(self).current_position@ == old(self).current_position@,
            final(self).function_name@ == old(self).function_name@,
            final(self).dynamic_constants == old(self).dynamic_constants,
    {
        self.vec4()
    }

    /// The text reading the next three constants as an RGB material.
    pub fn material(&mut self) -> (r: String)
        requires
            old(self).constant_index + 3 <= usize::MAX,
        ensures
            r@ == vec3_text(
                old(self).function_name@,
                old(self).dynamic_constants,
                old(self).constant_index as nat,
            ),
            final(self).constant_index == old(self).constant_index + 3,
            final(self).variable_index == old(self).variable_index,
            final(self).variable_stack@ == old(self).variable_stack@,
            final(self).position_variable_stack@ == old(self).position_variable_stack@,
            final(self).current_position@ == old(self).current_position@,
            final(self).function_name@ == old(self).function_name@,
            final(self).dynamic_constants == old(self).dynamic_constants,
    {
        self.vec3()
    }

    /// Pops the most recent value variable name.
    pub fn pop_variable(&mut self) -> (r: Option<String>)
        ensures
            final(self).variable_index == old(self).variable_index,
            final(self).constant_index == old(self).constant_index,
            final(self).position_variable_stack@ == old(self).position_variable_stack@,
            final(self).current_position@ == old(self).current_position@,
            final(self).function_name@ == old(self).function_name@,
            final(self).dynamic_constants == old(self).dynamic_constants,
            match r {
                Some(name) => old(self).variable_stack@.len() > 0 && name == old(
                    self,
                ).variable_stack@.last() && final(self).variable_stack@ == old(
                    self,
                ).variable_stack@.drop_last(),
                None => old(self).variable_stack@.len() == 0 && final(self).variable_stack@ == old(
                    self,
                ).variable_stack@,
            },
    {
        self.variable_stack.pop()
    }

    /// Restores the position variable saved by the matching
    /// [`CodeGenContext::push_transform`]. The position stack must not be
    /// empty.
    pub fn pop_transform(&mut self)
        requires
            old(self).position_variable_stack@.len() > 0,
        ensures
            final(self).variable_index == old(self).variable_index,
            final(self).constant_index == old(self).constant_index,
            final(self).variable_stack@ == old(self).variable_stack@,
            final(self).position_variable_stack@ == old(self).position_variable_stack@.drop_last(),
            final(self).current_position == old(self).position_variable_stack@.last(),
            final(self).function_name@ == old(self).function_name@,
            final(self).dynamic_constants == old(self).dynamic_constants,
    {
        let position = self.position_variable_stack.pop();
        match position {
            Some(position) => {
                self.current_position = position;
            },
            None => {
                // Excluded by the precondition.
            },
        }
    }

    /// The name of the position variable the next primitive samples at.
    pub fn current_position(&self) -> (r: String)
        ensures
            r@ == self.current_position@,
    {
        self.current_position.clone()
    }

    /// Saves the current position variable and switches to a fresh one;
    /// returns the new and the old name, in that order.
    pub fn push_transform(&mut self) -> (r: (String, String))
        requires
            old(self).variable_index < usize::MAX,
        ensures
            r.0@ == "transform"@ + dec_digits(old(self).variable_index as nat),
            r.1@ == old(self).current_position@,
            final(self).variable_index == old(self).variable_index + 1,
            final(self).constant_index == old(self).constant_index,
            final(self).variable_stack@ == old(self).variable_stack@,
            final(self).position_variable_stack@ == old(self).position_variable_stack@.push(
                old(self).current_position,
            ),
            final(self).current_position@ == r.0@,
            final(self).function_name@ == old(self).function_name@,
            final(self).dynamic_constants == old(self).dynamic_constants,
    {
        let mut name = String::from_str("transform");
        append_u64(&mut name, self.variable_index as u64);
        self.variable_index = self.variable_index + 1;
        let old_position = self.current_position.clone();
        self.position_variable_stack.push(self.current_position.clone());
        // The clone of the old position goes on the stack; the fresh name
        // becomes current.
        let new_position = name.clone();
        self.current_position = name;
        (new_position, old_position)
    }
}

/// Whether a decompiler step succeeded.
pub open spec fn step_ok(r: Result<RunState, Error>) -> bool {
    match r {
        Ok(_) => true,
        Err(_) => false,
    }
}

/// The state a successful decompiler step leaves behind.
pub open spec fn step_state(r: Result<RunState, Error>) -> RunState {
    match r {
        Ok(st) => st,
        Err(_) => init_run_state(),
    }
}

/// On a program the decompiler accepts, no step along the way can fail.
proof fn lemma_step_ok(ops: Seq<Opcode>, cs: Seq<u32>, pc: int, st: RunState)
    requires
        0 <= pc < ops.len(),
        ops[pc] != Opcode::End,
        spec_run(ops, cs, 0, init_run_state()) == spec_run(ops, cs, pc, st),
        !(spec_decompile(ops, cs) is Err),
    ensures
        step_ok(spec_step(ops[pc], cs, st)),
        spec_run(ops, cs, 0, init_run_state()) == spec_run(
            ops,
            cs,
            pc + 1,
            step_state(spec_step(ops[pc], cs, st)),
        ),
{
    match spec_step(ops[pc], cs, st) {
        Ok(st2) => {
            assert(spec_run(ops, cs, pc, st) == spec_run(ops, cs, pc + 1, st2));
        },
        Err(e) => {
            assert(spec_run(ops, cs, pc, st) == RunOut::Fail(e));
        },
    }
}

/// A program the decompiler accepts finishes its run with exactly one value
/// on the stack, at an `End` opcode.
proof fn lemma_run_final(ops: Seq<Opcode>, cs: Seq<u32>, pc: int, st: RunState, hit_end: bool)
    requires
        0 <= pc <= ops.len(),
        hit_end ==> pc < ops.len() && ops[pc] == Opcode::End,
        !hit_end ==> pc == ops.len(),
        spec_run(ops, cs, 0, init_run_state()) == spec_run(ops, cs, pc, st),
        !(spec_decompile(ops, cs) is Err),
    ensures
        hit_end,
        st.stack.len() == 1,
{
    if hit_end {
        assert(spec_run(ops, cs, pc, st) == RunOut::Done(st));
    } else {
        assert(spec_run(ops, cs, pc, st) == RunOut::NoEnd(st));
    }
}

/// Writes programs out as source code for one shading-language backend.
pub struct CodeGen {
    backend: Backend,
}

impl CodeGen {
    /// A writer for GLSL.
    pub fn glsl() -> (r: Self) {
        Self { backend: Backend::GLSL }
    }

    /// The fixed library of distance functions that generated code calls:
    /// for GLSL, always [`crate::glsl::GLSL_SDF_LIBRARY_CODE`].
    pub fn get_library_code(&self) -> (r: &'static str)
        ensures
            r@ == crate::glsl::GLSL_SDF_LIBRARY_CODE@,
    {
        match self.backend {
            Backend::GLSL => crate::glsl::get_glsl_sdf_library_code(),
        }
    }

    /// Translates a program into source code for this backend. The program
    /// must be one the decompiler accepts: on anything malformed the
    /// generated code would reference values that never reached the stack.
    pub fn to_code(
        &self,
        program: &Program,
        function_name: &str,
        output_type: OutputType,
        dynamic_constants: bool,
    ) -> (r: String)
        requires
            !(spec_decompile(program.opcodes@, program.constants@) is Err),
            program.opcodes@.len() * 2 + 2 < usize::MAX,
    {
        match self.backend {
            Backend::GLSL => Self::build_glsl_code(
                program,
                function_name,
                output_type,
                dynamic_constants,
            ),
        }
    }

    /// The GLSL translation: the constant pool as a `uint` array (unless the
    /// callers binds it dynamically), one statement per opcode, and small
    /// wrapper functions projecting the distance and the color out.
    #[verifier::rlimit(100)]
    fn build_glsl_code(
        program: &Program,
        function_name: &str,
        output_type: OutputType,
        dynamic_constants: bool,
    ) -> (r: String)
        requires
            !(spec_decompile(program.opcodes@, program.constants@) is Err),
            program.opcodes@.len() * 2 + 2 < usize::MAX,
    {
        let ghost ops = program.opcodes@;
        let ghost cs = program.constants@;

        let mut code = String::new();
        code.append("// !!! START OF GENERATED CODE !!!\n");

        let output_glsl_type: &str = match output_type {
            OutputType::DistanceOnly => "float",
            OutputType::DistanceWithRgb => "vec4",
        };

        if !dynamic_constants {
            code.append("\tconst uint ");
            code.append(function_name);
            code.append("_constants[");
            append_u64(&mut code, program.constants.len() as u64);
            code.append("] = uint[](");
            let mut i: usize = 0;
            while i < program.constants.len()
                invariant
                    i <= program.constants@.len(),
                decreases program.constants@.len() - i,
            {
                if i != 0 {
                    code.append(",");
                }
                append_u64(&mut code, program.constants[i] as u64);
                i = i + 1;
            }
            code.append(");\n");
        }
        let mut ctx = CodeGenContext::new("pos", function_name, dynamic_constants);

        code.append(output_glsl_type);
        code.append(" ");
        code.append(function_name);
        code.append("_base(vec3 pos) {\n");

        let prefix: &str = match output_type {
            OutputType::DistanceOnly => "sd",
            OutputType::DistanceWithRgb => "sdrgb",
        };

        let ghost mut st: RunState = init_run_state();
        let mut hit_end: bool = false;
        let mut pc: usize = 0;
        let n: usize = program.opcodes.len();
        let constants_len: usize = program.constants.len();
        proof {
            assert(cs.len() == constants_len);
        }

        while pc < n && !hit_end
            invariant
                n == ops.len(),
                pc <= n,
                n * 2 + 2 < usize::MAX,
                ops == program.opcodes@,
                cs == program.constants@,
                !(spec_decompile(ops, cs) is Err),
                hit_end ==> pc < n && ops[pc as int] == Opcode::End,
                spec_run(ops, cs, 0, init_run_state()) == spec_run(ops, cs, pc as int, st),
                ctx.variable_stack@.len() == st.stack.len(),
                ctx.constant_index == st.ci,
                0 <= st.ci <= cs.len(),
                cs.len() <= usize::MAX,
                ctx.variable_index <= 2 * pc,
                ctx.dynamic_constants == dynamic_constants,
            decreases n - pc, if hit_end { 0int } else { 1int },
        {
            let opcode = program.opcodes[pc];
            if opcode == Opcode::End {
                hit_end = true;
            } else {
                proof {
                    lemma_step_ok(ops, cs, pc as int, st);
                    assert(step_ok(spec_step(opcode, cs, st)));
                }
                let ghost stepped = step_state(spec_step(opcode, cs, st));
                match opcode {
                    Opcode::Plane => {
                        let variable_name = ctx.push_variable();
                        let plane = ctx.vec4();
                        code.append("\t");
                        code.append(output_glsl_type);
                        code.append(" ");
                        code.append(variable_name.as_str());
                        code.append(" = ");
                        code.append(prefix);
                        code.append("_plane(");
                        let pos = ctx.current_position();
                        code.append(pos.as_str());
                        code.append(", ");
                        code.append(plane.as_str());
                        code.append(");\n");
                    },
                    Opcode::Sphere => {
                        let variable_name = ctx.push_variable();
                        let center = ctx.vec3();
                        let radius = ctx.float32();
                        code.append("\t");
                        code.append(output_glsl_type);
                        code.append(" ");
                        code.append(variable_name.as_str());
                        code.append(" = ");
                        code.append(prefix);
                        code.append("_sphere(");
                        let pos = ctx.current_position();
                        code.append(pos.as_str());
                        code.append(", ");
                        code.append(center.as_str());
                        code.append(", ");
                        code.append(radius.as_str());
                        code.append(");\n");
                    },
                    Opcode::Capsule => {
                        let variable_name = ctx.push_variable();
                        let point0 = ctx.vec3();
                        let point1 = ctx.vec3();
                        let radius = ctx.float32();
                        code.append("\t");
                        code.append(output_glsl_type);
                        code.append(" ");
                        code.append(variable_name.as_str());
                        code.append(" = ");
                        code.append(prefix);
                        code.append("_capsule(");
                        let pos = ctx.current_position();
                        code.append(pos.as_str());
                        code.append(", ");
                        code.append(point0.as_str());
                        code.append(", ");
                        code.append(point1.as_str());
                        code.append(", ");
                        code.append(radius.as_str());
                        code.append(");\n");
                    },
                    Opcode::RoundedCylinder => {
                        let variable_name = ctx.push_variable();
                        let cylinder_radius = ctx.float32();
                        let half_height = ctx.float32();
                        let rounding_radius = ctx.float32();
                        code.append("\t");
                        code.append(output_glsl_type);
                        code.append(" ");
                        code.append(variable_name.as_str());
                        code.append(" = ");
                        code.append(prefix);
                        code.append("_rounded_cylinder(");
                        let pos = ctx.current_position();
                        code.append(pos.as_str());
                        code.append(", ");
                        code.append(cylinder_radius.as_str());
                        code.append(", ");
                        code.append(half_height.as_str());
                        code.append(", ");
                        code.append(rounding_radius.as_str());
                        code.append(");\n");
                    },
                    Opcode::TaperedCapsule => {
                        let variable_name = ctx.push_variable();
                        let p0 = ctx.vec3();
                        let r0 = ctx.float32();
                        let p1 = ctx.vec3();
                        let r1 = ctx.float32();
                        code.append("\t");
                        code.append(output_glsl_type);
                        code.append(" ");
                        code.append(variable_name.as_str());
                        code.append(" = ");
                        code.append(prefix);
                        code.append("_tapered_capsule(");
                        let pos = ctx.current_position();
                        code.append(pos.as_str());
                        code.append(", ");
                        code.append(p0.as_str());
                        code.append(", ");
                        code.append(p1.as_str());
                        code.append(", ");
                        code.append(r0.as_str());
                        code.append(", ");
                        code.append(r1.as_str());
                        code.append(");\n");
                    },
                    Opcode::Cone => {
                        let variable_name = ctx.push_variable();
                        let r0 = ctx.float32();
                        let h = ctx.float32();
                        code.append("\t");
                        code.append(output_glsl_type);
                        code.append(" ");
                        code.append(variable_name.as_str());
                        code.append(" = ");
                        code.append(prefix);
                        code.append("_cone(");
                        let pos = ctx.current_position();
                        code.append(pos.as_str());
                        code.append(", ");
                        code.append(r0.as_str());
                        code.append(", ");
                        code.append(h.as_str());
                        code.append(");\n");
                    },
                    Opcode::RoundedBox => {
                        let variable_name = ctx.push_variable();
                        let half_size = ctx.vec3();
                        let radius = ctx.float32();
                        code.append("\t");
                        code.append(output_glsl_type);
                        code.append(" ");
                        code.append(variable_name.as_str());
                        code.append(" = ");
                        code.append(prefix);
                        code.append("_rounded_box(");
                        let pos = ctx.current_position();
                        code.append(pos.as_str());
                        code.append(", ");
                        code.append(half_size.as_str());
                        code.append(", ");
                        code.append(radius.as_str());
                        code.append(");\n");
                    },
                    Opcode::Torus => {
                        let variable_name = ctx.push_variable();
                        let big_r = ctx.float32();
                        let small_r = ctx.float32();
                        code.append("\t");
                        code.append(output_glsl_type);
                        code.append(" ");
                        code.append(variable_name.as_str());
                        code.append(" = ");
                        code.append(prefix);
                        code.append("_torus(");
                        let pos = ctx.current_position();
                        code.append(pos.as_str());
                        code.append(", ");
                        code.append(big_r.as_str());
                        code.append(", ");
                        code.append(small_r.as_str());
                        code.append(");\n");
                    },
                    Opcode::TorusSector => {
                        let variable_name = ctx.push_variable();
                        let big_r = ctx.float32();
                        let small_r = ctx.float32();
                        let sin_cos = ctx.vec2();
                        code.append("\t");
                        code.append(output_glsl_type);
                        code.append(" ");
                        code.append(variable_name.as_str());
                        code.append(" = ");
                        code.append(prefix);
                        code.append("_torus_sector(");
                        let pos = ctx.current_position();
                        code.append(pos.as_str());
                        code.append(", ");
                        code.append(big_r.as_str());
                        code.append(", ");
                        code.append(small_r.as_str());
                        code.append(", ");
                        code.append(sin_cos.as_str());
                        code.append(");\n");
                    },
                    Opcode::BiconvexLens => {
                        let variable_name = ctx.push_variable();
                        let lower_sagitta = ctx.float32();
                        let upper_sagitta = ctx.float32();
                        let chord = ctx.float32();
                        code.append("\t");
                        code.append(output_glsl_type);
                        code.append(" ");
                        code.append(variable_name.as_str());
                        code.append(" = ");
                        code.append(prefix);
                        code.append("_biconvex_lens(");
                        let pos = ctx.current_position();
                        code.append(pos.as_str());
                        code.append(", ");
                        code.append(lower_sagitta.as_str());
                        code.append(", ");
                        code.append(upper_sagitta.as_str());
                        code.append(", ");
                        code.append(chord.as_str());
                        code.append(");\n");
                    },
                    Opcode::Material => {
                        let sd = match ctx.pop_variable() {
                            Some(v) => v,
                            None => unreached(),
                        };
                        let material = ctx.material();
                        let variable_name = ctx.push_variable();
                        code.append("\t");
                        code.append(output_glsl_type);
                        code.append(" ");
                        code.append(variable_name.as_str());
                        code.append(" = ");
                        code.append(prefix);
                        code.append("_material(");
                        code.append(sd.as_str());
                        code.append(", ");
                        code.append(material.as_str());
                        code.append(");\n");
                    },
                    Opcode::Union | Opcode::Subtract | Opcode::Intersect => {
                        let sd1 = match ctx.pop_variable() {
                            Some(v) => v,
                            None => unreached(),
                        };
                        let sd2 = match ctx.pop_variable() {
                            Some(v) => v,
                            None => unreached(),
                        };
                        let variable_name = ctx.push_variable();
                        code.append("\t");
                        code.append(output_glsl_type);
                        code.append(" ");
                        code.append(variable_name.as_str());
                        code.append(" = ");
                        code.append(prefix);
                        code.append(
                            match opcode {
                                Opcode::Union => "_op_union(",
                                Opcode::Subtract => "_op_subtract(",
                                _ => "_op_intersect(",
                            },
                        );
                        code.append(sd1.as_str());
                        code.append(", ");
                        code.append(sd2.as_str());
                        code.append(");\n");
                    },
                    Opcode::UnionSmooth | Opcode::SubtractSmooth | Opcode::IntersectSmooth => {
                        let sd1 = match ctx.pop_variable() {
                            Some(v) => v,
                            None => unreached(),
                        };
                        let sd2 = match ctx.pop_variable() {
                            Some(v) => v,
                            None => unreached(),
                        };
                        let variable_name = ctx.push_variable();
                        let size = ctx.float32();
                        code.append("\t");
                        code.append(output_glsl_type);
                        code.append(" ");
                        code.append(variable_name.as_str());
                        code.append(" = ");
                        code.append(prefix);
                        code.append(
                            match opcode {
                                Opcode::UnionSmooth => "_op_union_smooth(",
                                Opcode::SubtractSmooth => "_op_subtract_smooth(",
                                _ => "_op_intersect_smooth(",
                            },
                        );
                        code.append(sd1.as_str());
                        code.append(", ");
                        code.append(sd2.as_str());
                        code.append(", ");
                        code.append(size.as_str());
                        code.append(");\n");
                    },
                    Opcode::PushTranslation => {
                        let translation = ctx.vec3();
                        let (new_position, old_position) = ctx.push_transform();
                        code.append("\tvec3 ");
                        code.append(new_position.as_str());
                        code.append(" = ");
                        code.append(old_position.as_str());
                        code.append(" + ");
                        code.append(translation.as_str());
                        code.append(";\n");
                    },
                    Opcode::PopTransform => {
                        if ctx.position_variable_stack.len() > 0 {
                            ctx.pop_transform();
                        }
                    },
                    Opcode::PushRotation => {
                        let rotation = ctx.quat();
                        let (new_position, old_position) = ctx.push_transform();
                        code.append("\tvec3 ");
                        code.append(new_position.as_str());
                        code.append(" = mul_quat(");
                        code.append(rotation.as_str());
                        code.append(", ");
                        code.append(old_position.as_str());
                        code.append(");\n");
                    },
                    Opcode::PushScale => {
                        let scale = ctx.float32();
                        let (new_position, old_position) = ctx.push_transform();
                        code.append("\tvec3 ");
                        code.append(new_position.as_str());
                        code.append(" = ");
                        code.append(old_position.as_str());
                        code.append(" * ");
                        code.append(scale.as_str());
                        code.append(";\n");
                    },
                    Opcode::PopScale => {
                        if ctx.position_variable_stack.len() > 0 {
                            ctx.pop_transform();
                        }
                        let inv_scale = ctx.float32();
                        let sd = match ctx.pop_variable() {
                            Some(v) => v,
                            None => unreached(),
                        };
                        let variable_name = ctx.push_variable();
                        code.append("\t");
                        code.append(output_glsl_type);
                        code.append(" ");
                        code.append(variable_name.as_str());
                        code.append(" = ");
                        code.append(prefix);
                        code.append("_op_scale_distance(");
                        code.append(sd.as_str());
                        code.append(", ");
                        code.append(inv_scale.as_str());
                        code.append(");\n");
                    },
                    Opcode::End => {
                        // Handled before the match.
                    },
                }
                proof {
                    st = stepped;
                }
                pc = pc + 1;
            }
        }

        proof {
            lemma_run_final(ops, cs, pc as int, st, hit_end);
        }
        let ret = match ctx.pop_variable() {
            Some(v) => v,
            None => unreached(),
        };
        code.append("\treturn ");
        code.append(ret.as_str());
        code.append(";\n}\n");

        code.append("float ");
        code.append(function_name);
        code.append("(vec3 pos) { return ");
        code.append(function_name);
        code.append("_base(pos)");
        match output_type {
            OutputType::DistanceOnly => {},
            OutputType::DistanceWithRgb => {
                code.append(".w");
            },
        }
        code.append("; }\n");

        match output_type {
            OutputType::DistanceWithRgb => {
                code.append("vec3 ");
                code.append(function_name);
                code.append("_color(vec3 pos) { return ");
                code.append(function_name);
                code.append("_base(pos).rgb; }\n");
            },
            OutputType::DistanceOnly => {
                code.append("vec3 ");
                code.append(function_name);
                code.append("_color(vec3 /*pos*/) { return vec3(1.0, 1.0, 1.0); }\n");
            },
        }

        code.append("// !!! END OF GENERATED CODE !!!\n");
        code
    }
}

} // verus!
