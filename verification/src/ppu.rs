// Picture-processing-unit register views consumed by the render loop.

pub mod mask;
