# RBridger

A bridge between face tracking and [VTube Studio](https://github.com/DenchiSoft/VTubeStudio). It
reads frames from a tracker, evaluates the formulas of a transform config on each of them, and
injects the results as parameter values.

The rules of the program are a library verified with [Verus](https://github.com/verus-lang/verus):
each function states what it returns or changes, and the laws that span several functions stand
beside them as proof functions whose names start with `law_`.

| Directory | What it holds |
|-----------|---------------|
| `src/`    | the verified library |
| `tests/`  | its tests |
| `app/`    | the program around it: the window, the network, the files |

## The bridge

`VtsPc` in `src/vtspc.rs` is a machine. `app/driver.rs` performs the action it asks for and hands
the outcome back as an event:

1. dial VTube Studio, on the port of the settings or the one that it announces;
2. ask for the state of its API, authenticate, and ask for a token where there is none;
3. create the parameters that VTube Studio does not come with;
4. inject the values of the newest frame, again and again, or tell VTube Studio that the face is
   lost once it has been away for the time set.

## Transform config

A `.json` file with a list of entries:

```json
[{ "name": "FaceAngleY", "func": "-HeadRotY * 1", "min": -40.0, "max": 40.0, "defaultValue": 0 }]
```

`func` is a formula in the syntax of [evalexpr](https://docs.rs/evalexpr). Its variables are the
blend shapes, under their own keys and in PascalCase with `Left` or `Right` at the end, and
`HeadRotX` to `HeadRotZ` and `HeadPosX` to `HeadPosZ`. A variable that the tracker does not provide
is `0`. Besides the functions of evalexpr there are `math::clamp`, `math::min`, `math::max`,
`math::floor`, `math::ceil` and `math::round`.

The template is read from `configs/ovrog.json` in the directory of the program, `~/.rusty-bridge`.

## Floating point

The library holds floating-point numbers by their bits and only negates, bounds and copies them.
The formulas themselves are evaluated in `app/formulas.rs`.
